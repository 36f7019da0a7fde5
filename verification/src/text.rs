use vstd::prelude::*;
use vstd::string::*;

verus! {

/// True exactly when the two string slices hold the same characters.
pub fn str_eq(a: &str, b: &str) -> (r: bool)
    ensures
        r == (a@ == b@),
{
    let x: String = a.to_owned();
    let y: String = b.to_owned();
    x == y
}

/// The items of `l` written out in order, each followed by a newline
/// when `newline` is set.
pub open spec fn joined_text(l: Seq<Seq<char>>, newline: bool) -> Seq<char>
    decreases l.len(),
{
    if l.len() == 0 {
        Seq::empty()
    } else if newline {
        joined_text(l.drop_last(), newline) + l.last() + "\n"@
    } else {
        joined_text(l.drop_last(), newline) + l.last()
    }
}

/// The views of a vector of strings.
pub open spec fn lines_model(l: Seq<String>) -> Seq<Seq<char>> {
    l.map_values(|s: String| s@)
}

/// Concatenate the lines of `list` in order, with a newline after each
/// when `newline` is set, exactly as `joined_text` describes.
pub fn join_lines(list: &Vec<String>, newline: bool) -> (r: String)
    ensures
        r@ == joined_text(lines_model(list@), newline),
{
    let ghost l = lines_model(list@);
    let mut r = String::new();
    let n = list.len();
    let mut k: usize = 0;
    proof {
        assert(joined_text(l.take(0), newline) =~= Seq::<char>::empty());
    }
    while k < n
        invariant
            0 <= k <= n,
            n == list.len(),
            l == lines_model(list@),
            r@ == joined_text(l.take(k as int), newline),
        decreases n - k,
    {
        r.append(list[k].as_str());
        if newline {
            r.append("\n");
        }
        proof {
            let t = l.take(k + 1 as int);
            assert(t.drop_last() =~= l.take(k as int));
            assert(t.last() == l[k as int]);
        }
        k += 1;
    }
    proof {
        assert(l.take(n as int) =~= l);
    }
    r
}

} // verus!
