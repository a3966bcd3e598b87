//! Textual form of a dual number, `"<real> + <dual>ε"` or `"<real> - <|dual|>ε"`.
use vstd::prelude::*;
use vstd::string::StringExecFns;

verus! {

/// The infinitesimal symbol that closes the tangent part.
pub const EPSILON_SYMBOL: char = '\u{3b5}';

/// The separator between the two parts: `" - "` when the tangent's sign bit
/// is set (negative zero included), `" + "` otherwise.
pub open spec fn separator(dual_negative: bool) -> Seq<char> {
    if dual_negative {
        seq![' ', '-', ' ']
    } else {
        seq![' ', '+', ' ']
    }
}

/// The text of a dual number, from the text of its primal part, the sign bit
/// of its tangent and the text of the tangent's magnitude.
pub open spec fn rendered(real_text: Seq<char>, dual_negative: bool, magnitude_text: Seq<char>) -> Seq<char> {
    real_text + separator(dual_negative) + magnitude_text + seq![EPSILON_SYMBOL]
}

/// Writes a dual number out. The caller hands over the primal part already
/// formatted, whether the tangent's sign bit is set, and the formatted
/// magnitude of the tangent; the sign is carried by the separator alone.
pub fn render(real_text: &str, dual_negative: bool, magnitude_text: &str) -> (r: String)
    ensures
        r@ == rendered(real_text@, dual_negative, magnitude_text@),
{
    let mut out = String::from_str(real_text);
    if dual_negative {
        out.append(" - ");
        proof {
            reveal_strlit(" - ");
        }
    } else {
        out.append(" + ");
        proof {
            reveal_strlit(" + ");
        }
    }
    out.append(magnitude_text);
    out.append("\u{3b5}");
    proof {
        reveal_strlit("\u{3b5}");
    }
    assert(out@ =~= rendered(real_text@, dual_negative, magnitude_text@));
    out
}

} // verus!
