//! The language a frontend project is written in.

use vstd::prelude::*;
use crate::text::is_text;

verus! {

/// JavaScript or TypeScript.
#[derive(Clone, Copy, Debug, PartialEq, Eq, Structural)]
pub enum Lang {
    Js,
    Ts,
}

/// The command-line spelling of `l`.
pub open spec fn lang_name(l: Lang) -> Seq<char> {
    match l {
        Lang::Js => "js"@,
        Lang::Ts => "ts"@,
    }
}

/// The language that `s` names, if it names one.
pub open spec fn lang_of(s: Seq<char>) -> Option<Lang> {
    if s == "js"@ {
        Some(Lang::Js)
    } else if s == "ts"@ {
        Some(Lang::Ts)
    } else {
        None
    }
}

/// Reads a language value: `js` or `ts`, and nothing else.
pub fn parse_lang(s: &String) -> (r: Option<Lang>)
    ensures
        r == lang_of(s@),
{
    if is_text(s, "js") {
        Some(Lang::Js)
    } else if is_text(s, "ts") {
        Some(Lang::Ts)
    } else {
        None
    }
}

/// The spelling of a language, as the command line writes it.
pub fn lang_str(l: Lang) -> (r: &'static str)
    ensures
        r@ == lang_name(l),
{
    match l {
        Lang::Js => "js",
        Lang::Ts => "ts",
    }
}

/// Reading back the spelling of a language gives that language, and only the
/// spelling `ts` names TypeScript.
pub proof fn lemma_lang_round_trip(l: Lang)
    ensures
        lang_of(lang_name(l)) == Some(l),
        (lang_name(l) == "ts"@) <==> (l == Lang::Ts),
{
    reveal_strlit("js");
    reveal_strlit("ts");
    assert("js"@ != "ts"@) by {
        assert("js"@[0] != "ts"@[0]);
    }
}

} // verus!
