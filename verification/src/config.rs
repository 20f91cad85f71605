use vstd::prelude::*;

use crate::text::{strings_view, trim_ws, trimmed_of};

verus! {

/// The position of the first comma in `s`, or `s.len()` when there is none.
pub open spec fn first_comma(s: Seq<char>) -> nat
    decreases s.len(),
{
    if s.len() == 0 {
        0
    } else if s[0] == ',' {
        0
    } else {
        1 + first_comma(s.drop_first())
    }
}

proof fn lemma_first_comma_bounds(s: Seq<char>)
    ensures
        first_comma(s) <= s.len(),
        first_comma(s) < s.len() ==> s[first_comma(s) as int] == ',',
        forall|k: int| 0 <= k < first_comma(s) ==> s[k] != ',',
    decreases s.len(),
{
    if s.len() > 0 && s[0] != ',' {
        lemma_first_comma_bounds(s.drop_first());
        assert forall|k: int| 0 <= k < first_comma(s) implies s[k] != ',' by {
            if k > 0 {
                assert(s.drop_first()[k - 1] == s[k]);
            }
        }
    }
}

/// A configuration list, read from one comma-separated string: the pieces
/// between the commas, each trimmed of surrounding whitespace, with the
/// pieces that are then empty left out.
pub open spec fn spec_split_list(s: Seq<char>) -> Seq<Seq<char>>
    decreases s.len(),
{
    let i = first_comma(s);
    let piece = trimmed_of(s.take(i as int));
    let head = if piece.len() > 0 {
        seq![piece]
    } else {
        Seq::<Seq<char>>::empty()
    };
    if i >= s.len() {
        head
    } else {
        head + spec_split_list(s.skip(i as int + 1))
    }
}

/// The index of the first comma of `s`, or its length when it has none.
fn find_comma(s: &str) -> (i: usize)
    ensures
        i == first_comma(s@),
        i <= s@.len(),
{
    let n = s.unicode_len();
    let mut i: usize = 0;
    while i < n
        invariant
            i <= n,
            n == s@.len(),
            forall|k: int| 0 <= k < i ==> s@[k] != ',',
        decreases n - i,
    {
        if s.get_char(i) == ',' {
            proof {
                lemma_first_comma_bounds(s@);
            }
            return i;
        }
        i += 1;
    }
    proof {
        lemma_first_comma_bounds(s@);
    }
    i
}

/// Splits one comma-separated configuration value into its list entries:
/// each piece trimmed, empty pieces dropped, exactly as `spec_split_list`
/// says.
pub fn split_list(s: &str) -> (r: Vec<String>)
    ensures
        strings_view(r@) == spec_split_list(s@),
    decreases s@.len(),
{
    let n = s.unicode_len();
    let i = find_comma(s);
    let piece_raw = s.substring_char(0, i);
    let piece = trim_ws(piece_raw);
    proof {
        assert(s@.subrange(0, i as int) =~= s@.take(i as int));
    }
    let mut out: Vec<String> = Vec::new();
    if !piece.is_empty() {
        out.push(String::from_str(piece));
    }
    let ghost head_done = strings_view(out@);
    proof {
        let sp = trimmed_of(s@.take(i as int));
        if sp.len() > 0 {
            assert(head_done =~= seq![sp]);
        } else {
            assert(head_done =~= Seq::<Seq<char>>::empty());
        }
    }
    if i < n {
        let rest = s.substring_char(i + 1, n);
        proof {
            assert(rest@ =~= s@.skip(i as int + 1));
        }
        let mut tail = split_list(rest);
        let ghost tail_view = strings_view(tail@);
        out.append(&mut tail);
        proof {
            assert(strings_view(out@) =~= head_done + tail_view);
        }
    }
    proof {
        assert(strings_view(out@) =~= spec_split_list(s@));
    }
    out
}

} // verus!
