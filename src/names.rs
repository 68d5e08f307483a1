use vstd::prelude::*;

verus! {

/// The text of `s` with leading and trailing whitespace removed.
pub uninterp spec fn trimmed(s: Seq<char>) -> Seq<char>;

/// Relies on str::trim: removes leading and trailing whitespace.
#[verifier::external_body]
fn trim(s: &str) -> (r: String)
    ensures
        r@ == trimmed(s@),
{
    s.trim().to_owned()
}

/// The comma-separated pieces of `s`, empty ones included; there is always
/// at least one piece.
pub open spec fn comma_pieces(s: Seq<char>) -> Seq<Seq<char>>
    decreases s.len(),
{
    if s.len() == 0 {
        seq![Seq::empty()]
    } else {
        let p = comma_pieces(s.drop_last());
        if s.last() == ',' {
            p.push(Seq::empty())
        } else {
            p.update(p.len() - 1, p.last().push(s.last()))
        }
    }
}

/// The non-empty entries of `ps`, in order.
pub open spec fn non_empty(ps: Seq<Seq<char>>) -> Seq<Seq<char>>
    decreases ps.len(),
{
    if ps.len() == 0 {
        Seq::empty()
    } else {
        let r = non_empty(ps.drop_last());
        if ps.last().len() > 0 {
            r.push(ps.last())
        } else {
            r
        }
    }
}

/// The names in a comma-separated line: each piece trimmed, empty ones dropped.
pub open spec fn name_tokens(s: Seq<char>) -> Seq<Seq<char>> {
    non_empty(comma_pieces(s).map_values(|p: Seq<char>| trimmed(p)))
}

/// Splits `line` at each comma and trims every piece.
pub fn split_trimmed(line: &str) -> (r: Vec<String>)
    ensures
        r.deep_view() == comma_pieces(line@).map_values(|p: Seq<char>| trimmed(p)),
{
    let n: usize = line.unicode_len();
    let mut done: Vec<String> = Vec::new();
    let ghost raw: Seq<Seq<char>> = Seq::empty();
    let mut start: usize = 0;
    let mut i: usize = 0;
    proof {
        assert(line@.take(0) =~= Seq::<char>::empty());
        assert(line@.subrange(0, 0) =~= Seq::<char>::empty());
        assert(raw.push(line@.subrange(0, 0)) =~= seq![Seq::<char>::empty()]);
    }
    while i < n
        invariant
            n == line@.len(),
            start <= i <= n,
            raw.push(line@.subrange(start as int, i as int)) == comma_pieces(line@.take(i as int)),
            done.deep_view() == raw.map_values(|p: Seq<char>| trimmed(p)),
        decreases n - i,
    {
        let c = line.get_char(i);
        proof {
            assert(line@.take(i + 1).drop_last() =~= line@.take(i as int));
            assert(line@.take(i + 1).last() == c);
        }
        if c == ',' {
            let piece = line.substring_char(start, i);
            let ghost before = done.deep_view();
            done.push(trim(piece));
            proof {
                assert(done.deep_view() =~= before.push(trimmed(piece@)));
                raw = raw.push(piece@);
                assert(raw.map_values(|p: Seq<char>| trimmed(p)) =~= before.push(trimmed(piece@)));
                assert(line@.subrange((i + 1) as int, (i + 1) as int) =~= Seq::<char>::empty());
            }
            start = i + 1;
        } else {
            proof {
                assert(line@.subrange(start as int, i + 1) =~= line@.subrange(start as int, i as int).push(c));
                let q = raw.push(line@.subrange(start as int, i as int));
                assert(q.update(q.len() - 1, q.last().push(c)) =~= raw.push(line@.subrange(start as int, i + 1)));
            }
        }
        i += 1;
    }
    let last = line.substring_char(start, n);
    let ghost before = done.deep_view();
    done.push(trim(last));
    proof {
        assert(line@.take(n as int) =~= line@);
        assert(done.deep_view() =~= before.push(trimmed(last@)));
        assert(raw.push(last@).map_values(|p: Seq<char>| trimmed(p)) =~= before.push(trimmed(last@)));
    }
    done
}

/// Keeps the non-empty entries of `pieces`, in order.
pub fn keep_non_empty(pieces: Vec<String>) -> (r: Vec<String>)
    ensures
        r.deep_view() == non_empty(pieces.deep_view()),
{
    let mut r: Vec<String> = Vec::new();
    let mut i: usize = 0;
    while i < pieces.len()
        invariant
            i <= pieces.len(),
            r.deep_view() == non_empty(pieces.deep_view().take(i as int)),
        decreases pieces.len() - i,
    {
        let ghost before = r.deep_view();
        proof {
            assert(pieces.deep_view().take(i + 1).drop_last() =~= pieces.deep_view().take(i as int));
            assert(pieces.deep_view().take(i + 1).last() == pieces[i as int]@);
        }
        if pieces[i].unicode_len() > 0 {
            r.push(pieces[i].clone());
            proof {
                assert(r.deep_view() =~= before.push(pieces[i as int]@));
            }
        }
        i += 1;
    }
    proof {
        assert(pieces.deep_view().take(pieces.len() as int) =~= pieces.deep_view());
    }
    r
}

/// Reads dependency names from one comma-separated line: each piece is
/// trimmed and empty pieces are dropped.
pub fn parse_name_list(line: &str) -> (r: Vec<String>)
    ensures
        r.deep_view() == name_tokens(line@),
{
    keep_non_empty(split_trimmed(line))
}

} // verus!
