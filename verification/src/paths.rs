//! The directory that a path lies in, on paths as bytes.
use vstd::prelude::*;

verus! {

/// The path of `name` in the directory `base`.
pub open spec fn joined(base: Seq<u8>, name: Seq<u8>) -> Seq<u8> {
    if base.len() > 0 && base.last() != 47u8 {
        base.push(47u8) + name
    } else {
        base + name
    }
}

/// How many bytes of a path come before its named components: the root, or a dot that it begins with
/// as a component.
pub open spec fn path_start(path: Seq<u8>) -> int {
    if path.len() > 0 && path[0] == 47u8 {
        1
    } else if path.len() > 0 && path[0] == 46u8 && (path.len() == 1 || path[1] == 47u8) {
        1
    } else {
        0
    }
}

/// Where the last piece of a path begins, the slash before it left out.
pub open spec fn piece_start(path: Seq<u8>, from: int, to: int) -> int
    decreases to - from,
{
    if to <= from || path[to - 1] == 47u8 {
        to
    } else {
        piece_start(path, from, to - 1)
    }
}

/// The last piece of a path, which may be empty.
pub open spec fn last_piece(path: Seq<u8>) -> Seq<u8> {
    path.skip(piece_start(path, path_start(path), path.len() as int))
}

/// The path without its last piece and the slash before it.
pub open spec fn without_last_piece(path: Seq<u8>) -> Seq<u8> {
    let start = path_start(path);
    let piece = piece_start(path, start, path.len() as int);
    if piece > start {
        path.take(piece - 1)
    } else {
        path.take(piece)
    }
}

/// The last piece begins within the part that is looked at.
pub proof fn lemma_piece_start(path: Seq<u8>, from: int, to: int)
    requires
        0 <= from <= to <= path.len(),
    ensures
        from <= piece_start(path, from, to) <= to,
    decreases to - from,
{
    if to > from && path[to - 1] != 47u8 {
        lemma_piece_start(path, from, to - 1);
    }
}

/// The path without the empty pieces and dots at its end.
pub open spec fn without_blank_pieces(path: Seq<u8>) -> Seq<u8>
    decreases path.len(),
{
    if path.len() > path_start(path) && (last_piece(path).len() == 0 || last_piece(path)
        == seq![46u8]) {
        proof {
            lemma_piece_start(path, path_start(path), path.len() as int);
        }
        without_blank_pieces(without_last_piece(path))
    } else {
        path
    }
}

/// The directory that holds what a path names; none for the root and for the empty path.
pub open spec fn parent_path(path: Seq<u8>) -> Option<Seq<u8>> {
    let named = without_blank_pieces(path);
    if named.len() > path_start(named) {
        Some(without_blank_pieces(without_last_piece(named)))
    } else if named.len() > 0 && named[0] == 46u8 {
        Some(Seq::empty())
    } else {
        None
    }
}

fn find_path_start(path: &Vec<u8>, len: usize) -> (r: usize)
    requires
        len <= path@.len(),
    ensures
        r == path_start(path@.take(len as int)),
        r <= len,
{
    if len > 0 && path[0] == 47 {
        1
    } else if len > 0 && path[0] == 46 && (len == 1 || path[1] == 47) {
        1
    } else {
        0
    }
}

fn find_piece_start(path: &Vec<u8>, len: usize) -> (r: usize)
    requires
        len <= path@.len(),
    ensures
        ({
            let kept = path@.take(len as int);
            &&& r == piece_start(kept, path_start(kept), len as int)
            &&& path_start(kept) <= r <= len
        }),
{
    let start: usize = find_path_start(path, len);
    let ghost kept = path@.take(len as int);
    let mut at: usize = len;
    while at > start && path[at - 1] != 47
        invariant
            start <= at <= len <= path@.len(),
            kept == path@.take(len as int),
            piece_start(kept, start as int, len as int) == piece_start(
                kept,
                start as int,
                at as int,
            ),
        decreases at,
    {
        assert(kept[at - 1] == path@[at - 1]);
        at -= 1;
    }
    proof {
        if at > start {
            assert(kept[at - 1] == path@[at - 1]);
        }
    }
    at
}

fn cut_last_piece(path: &Vec<u8>, len: usize) -> (r: usize)
    requires
        len <= path@.len(),
    ensures
        r <= len,
        path@.take(r as int) == without_last_piece(path@.take(len as int)),
        len > path_start(path@.take(len as int)) ==> r < len,
{
    let start: usize = find_path_start(path, len);
    let piece: usize = find_piece_start(path, len);
    let ghost kept = path@.take(len as int);
    if piece > start {
        proof {
            assert(kept.take(piece - 1) =~= path@.take(piece - 1));
        }
        piece - 1
    } else {
        proof {
            assert(kept.take(piece as int) =~= path@.take(piece as int));
        }
        piece
    }
}

fn cut_blank_pieces(path: &Vec<u8>, len: usize) -> (r: usize)
    requires
        len <= path@.len(),
    ensures
        r <= len,
        path@.take(r as int) == without_blank_pieces(path@.take(len as int)),
{
    let mut end: usize = len;
    loop
        invariant
            end <= len <= path@.len(),
            without_blank_pieces(path@.take(len as int)) == without_blank_pieces(
                path@.take(end as int),
            ),
        decreases end,
    {
        let ghost kept = path@.take(end as int);
        let piece: usize = find_piece_start(path, end);
        let blank = piece == end || (end - piece == 1 && path[piece] == 46);
        proof {
            assert(last_piece(kept).len() == end - piece);
            if end - piece == 1 {
                assert(last_piece(kept)[0] == path@[piece as int]);
                if path@[piece as int] == 46u8 {
                    assert(last_piece(kept) =~= seq![46u8]);
                }
            }
        }
        if end == find_path_start(path, end) || !blank {
            return end;
        }
        end = cut_last_piece(path, end);
    }
}

/// Finds the directory that holds what a path names.
pub fn parent_directory(path: &Vec<u8>) -> (r: Option<Vec<u8>>)
    ensures
        match r {
            Some(p) => parent_path(path@) == Some(p@),
            None => parent_path(path@) is None,
        },
{
    proof {
        assert(path@.take(path@.len() as int) =~= path@);
    }
    let end: usize = cut_blank_pieces(path, path.len());
    let start: usize = find_path_start(path, end);
    if end > start {
        let cut: usize = cut_last_piece(path, end);
        let kept: usize = cut_blank_pieces(path, cut);
        let mut out: Vec<u8> = Vec::new();
        let mut i: usize = 0;
        while i < kept
            invariant
                i <= kept <= path@.len(),
                out@ =~= path@.take(i as int),
            decreases kept - i,
        {
            out.push(path[i]);
            i += 1;
        }
        Some(out)
    } else if end > 0 && path[0] == 46 {
        let none: Vec<u8> = Vec::new();
        proof {
            assert(none@ =~= Seq::empty());
        }
        Some(none)
    } else {
        None
    }
}

proof fn lemma_piece_without_slash(path: Seq<u8>, from: int, at: int, to: int)
    requires
        0 <= from <= at <= to <= path.len(),
        at == from || path[at - 1] == 47u8,
        forall|i: int| at <= i < to ==> path[i] != 47u8,
    ensures
        piece_start(path, from, to) == at,
    decreases to,
{
    if to > at {
        lemma_piece_without_slash(path, from, at, to - 1);
    }
}

/// What is put into a directory under a plain name lies in that directory.
pub proof fn lemma_parent_of_joined(base: Seq<u8>, name: Seq<u8>)
    requires
        name.len() > 1,
        name[0] != 46u8,
        forall|i: int| 0 <= i < name.len() ==> #[trigger] name[i] != 47u8,
    ensures
        parent_path(joined(base, name)) == Some(without_blank_pieces(base)),
{
    let path = joined(base, name);
    let at = path.len() - name.len();
    let start = path_start(path);
    assert forall|i: int| at <= i < path.len() implies path[i] != 47u8 by {
        assert(path[i] == name[i - at]);
    }
    if base.len() == 0 {
        assert(path =~= name);
    } else {
        assert(path[0] == base[0]);
        assert(path[at - 1] == 47u8);
        if base.len() > 1 {
            assert(path[1] == base[1]);
        }
    }
    lemma_piece_without_slash(path, start, at, path.len() as int);
    assert(last_piece(path) =~= name);
    assert(without_blank_pieces(path) == path);
    let rest = without_last_piece(path);
    if at == start {
        assert(rest =~= base);
    } else if base.last() != 47u8 {
        assert(rest =~= base);
    } else {
        assert(rest =~= base.drop_last());
        assert(piece_start(base, path_start(base), base.len() as int) == base.len());
        assert(last_piece(base).len() == 0);
        assert(without_last_piece(base) =~= base.drop_last());
    }
}

} // verus!
