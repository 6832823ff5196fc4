//! Rendering helpers for the human-readable error messages: the `{:?}`
//! rendering of a string and of a list of strings, as the message
//! templates of the error types use them.

use vstd::prelude::*;
use vstd::string::StringExecFns;

verus! {

/// The text that `{:?}` produces for a string slice: the string quoted and
/// escaped. The rendering depends on the characters alone; `fmt_str_debug`
/// below is the one place that produces it.
pub uninterp spec fn str_debug_text(s: Seq<char>) -> Seq<char>;

/// Relies on the `Debug` impl of `str` in std: it writes the slice between
/// double quotes, escaping with `char::escape_debug`, and reads nothing but
/// the characters of the slice.
#[verifier::external_body]
pub(crate) fn fmt_str_debug(s: &str) -> (r: String)
    ensures
        r@ == str_debug_text(s@),
{
    format!("{:?}", s)
}

/// The text that `{:?}` produces for a list of strings: the elements'
/// quoted texts, separated by `", "`, between square brackets.
pub open spec fn debug_list_text(ws: Seq<Seq<char>>) -> Seq<char> {
    "["@ + debug_list_items_text(ws) + "]"@
}

/// The inside of [`debug_list_text`]: the quoted elements joined by `", "`.
pub open spec fn debug_list_items_text(ws: Seq<Seq<char>>) -> Seq<char>
    decreases ws.len(),
{
    if ws.len() == 0 {
        Seq::empty()
    } else if ws.len() == 1 {
        str_debug_text(ws.last())
    } else {
        debug_list_items_text(ws.drop_last()) + ", "@ + str_debug_text(ws.last())
    }
}

/// Renders a vector of strings exactly as `{:?}` renders it, element order
/// kept.
pub fn fmt_list_debug(v: &Vec<String>) -> (r: String)
    ensures
        r@ == debug_list_text(v.deep_view()),
{
    let ghost dv = v.deep_view();
    let mut out = String::from_str("[");
    proof {
        assert(out@ =~= "["@ + debug_list_items_text(dv.take(0)));
    }
    let mut i: usize = 0;
    while i < v.len()
        invariant
            i <= v.len(),
            dv == v.deep_view(),
            out@ == "["@ + debug_list_items_text(dv.take(i as int)),
        decreases v.len() - i,
    {
        if i > 0 {
            out.append(", ");
        }
        let piece = fmt_str_debug(v[i].as_str());
        out.append(piece.as_str());
        proof {
            let prefix = dv.take(i as int + 1);
            assert(prefix.drop_last() =~= dv.take(i as int));
            assert(prefix.last() == dv[i as int]);
            assert(v@[i as int]@ == dv[i as int]);
            assert(out@ =~= "["@ + debug_list_items_text(prefix));
        }
        i += 1;
    }
    proof {
        assert(dv.take(v.len() as int) =~= dv);
    }
    out.append("]");
    out
}

} // verus!
