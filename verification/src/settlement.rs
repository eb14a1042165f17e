//! How an option on a future is settled, and the keyword grammar that
//! names the two styles in contract data.

use vstd::prelude::*;
use crate::error::{invalid_input, is_invalid_input, RustyQLibError};
use crate::text::{all_ascii, ascii_lowered, lowercased, quoted, str_eq, to_lowercase, trim, trimmed};

verus! {

/// How an option on a future is settled.
#[derive(Debug, Clone, Copy, PartialEq, Eq, Structural)]
pub enum FuturesSettlement {
    /// Premium paid up front; the payoff is discounted at the risk-free rate.
    Discounted,
    /// Futures-style: the premium is margined, so the payoff is undiscounted.
    Margined,
}

/// The settlement a (trimmed, lower-cased) keyword names, if any.
pub open spec fn settlement_of_keyword(k: Seq<char>) -> Option<FuturesSettlement> {
    if k == "discounted"@ || k == "black76"@ || k == "premium"@ || k == "premium_settled"@ {
        Some(FuturesSettlement::Discounted)
    } else if k == "margined"@ || k == "futures_style"@ || k == "future_style"@
        || k == "futures-style"@ {
        Some(FuturesSettlement::Margined)
    } else {
        None
    }
}

/// The message that rejects keyword `k`.
pub open spec fn settlement_error(k: Seq<char>) -> Seq<char> {
    "Invalid futures settlement '"@ + k + "' (use 'discounted' or 'margined')"@
}

/// The result of parsing text `s`: the keyword is `s` trimmed and
/// lower-cased.
pub open spec fn settlement_parse(s: Seq<char>) -> Result<FuturesSettlement, Seq<char>> {
    let k = lowercased(trimmed(s));
    match settlement_of_keyword(k) {
        Some(v) => Ok(v),
        None => Err(settlement_error(k)),
    }
}

impl FuturesSettlement {
    /// Parse an already normalized keyword.
    pub fn from_keyword(k: &str) -> (r: Result<FuturesSettlement, String>)
        ensures
            match settlement_of_keyword(k@) {
                Some(v) => r == Ok::<FuturesSettlement, String>(v),
                None => r is Err && r->Err_0@ == settlement_error(k@),
            },
    {
        if str_eq(k, "discounted") || str_eq(k, "black76") || str_eq(k, "premium") || str_eq(
            k,
            "premium_settled",
        ) {
            Ok(FuturesSettlement::Discounted)
        } else if str_eq(k, "margined") || str_eq(k, "futures_style") || str_eq(
            k,
            "future_style",
        ) || str_eq(k, "futures-style") {
            Ok(FuturesSettlement::Margined)
        } else {
            Err(quoted("Invalid futures settlement '", k, "' (use 'discounted' or 'margined')"))
        }
    }

    /// Parse contract text: surrounding white space is ignored and the
    /// keyword is matched case-insensitively.
    pub fn parse(s: &str) -> (r: Result<FuturesSettlement, String>)
        ensures
            all_ascii(trimmed(s@)) ==> lowercased(trimmed(s@)) == ascii_lowered(trimmed(s@)),
            match settlement_parse(s@) {
                Ok(v) => r == Ok::<FuturesSettlement, String>(v),
                Err(e) => r is Err && r->Err_0@ == e,
            },
    {
        let t = trim(s);
        let k = to_lowercase(t);
        Self::from_keyword(k.as_str())
    }
}

impl std::str::FromStr for FuturesSettlement {
    type Err = String;

    fn from_str(s: &str) -> (r: Result<FuturesSettlement, String>)
        ensures
            all_ascii(trimmed(s@)) ==> lowercased(trimmed(s@)) == ascii_lowered(trimmed(s@)),
            match settlement_parse(s@) {
                Ok(v) => r == Ok::<FuturesSettlement, String>(v),
                Err(e) => r is Err && r->Err_0@ == e,
            },
    {
        FuturesSettlement::parse(s)
    }
}

/// The settlement of contract field `futures_settlement`; a refusal
/// quotes the field's text as given.
pub fn parse_futures_settlement(s: &str) -> (r: Result<FuturesSettlement, RustyQLibError>)
    ensures
        all_ascii(trimmed(s@)) ==> lowercased(trimmed(s@)) == ascii_lowered(trimmed(s@)),
        match settlement_parse(s@) {
            Ok(v) => r is Ok && r->Ok_0 == v,
            Err(_) => r is Err && is_invalid_input(
                r->Err_0,
                "futures_settlement"@,
                "invalid futures_settlement '"@ + s@ + "' (use 'discounted' or 'margined')"@,
            ),
        },
{
    match FuturesSettlement::parse(s) {
        Ok(v) => Ok(v),
        Err(_) => Err(
            invalid_input(
                "futures_settlement",
                quoted("invalid futures_settlement '", s, "' (use 'discounted' or 'margined')"),
            ),
        ),
    }
}

/// What checking an option that is (or is not) on a future gives.
pub open spec fn futures_outcome(futures: bool, vanilla: bool, american: bool, r: Result<(), RustyQLibError>) -> bool {
    &&& !futures ==> r is Ok
    &&& futures && !vanilla ==> r is Err && is_invalid_input(
        r->Err_0,
        "on_future"@,
        "options on futures (Black-76) support the vanilla payoff only"@,
    )
    &&& futures && vanilla && american ==> r is Err && is_invalid_input(
        r->Err_0,
        "on_future"@,
        "Black-76 supports European exercise only"@,
    )
    &&& futures && vanilla && !american ==> r is Ok
}

/// Options on futures (Black-76) are vanilla and exercised at expiry:
/// a non-vanilla payoff, or American exercise, is refused.
pub fn check_futures_option(futures: bool, vanilla: bool, american: bool) -> (r: Result<(), RustyQLibError>)
    ensures
        futures_outcome(futures, vanilla, american, r),
{
    if futures {
        if !vanilla {
            return Err(
                invalid_input(
                    "on_future",
                    String::from_str("options on futures (Black-76) support the vanilla payoff only"),
                ),
            );
        }
        if american {
            return Err(
                invalid_input("on_future", String::from_str("Black-76 supports European exercise only")),
            );
        }
    }
    Ok(())
}

/// Each style's own name parses back to it: `margined` is none of the
/// keywords of the discounted style.
pub proof fn lemma_settlement_keywords()
    ensures
        settlement_of_keyword("discounted"@) == Some(FuturesSettlement::Discounted),
        settlement_of_keyword("margined"@) == Some(FuturesSettlement::Margined),
{
    reveal_strlit("discounted");
    reveal_strlit("black76");
    reveal_strlit("premium");
    reveal_strlit("premium_settled");
    reveal_strlit("margined");
    assert("margined"@.len() == 8);
    assert("margined"@ != "discounted"@);
    assert("margined"@ != "black76"@);
    assert("margined"@ != "premium"@);
    assert("margined"@ != "premium_settled"@);
}

/// Parsing ignores surrounding white space and letter case: texts with
/// the same trimmed, lower-cased form parse alike.
pub proof fn lemma_settlement_parse_normalized(s1: Seq<char>, s2: Seq<char>)
    requires
        lowercased(trimmed(s1)) == lowercased(trimmed(s2)),
    ensures
        settlement_parse(s1) == settlement_parse(s2),
{
}

} // verus!
