//! Faces of Wavefront OBJ meshes.
//!
//! A face lists its corners; each corner names a position and, optionally, a
//! texture coordinate and a normal, all by 1-based index into the object's
//! lists, as written in an `f` line (`7`, `7/2`, `7//3` or `7/2/3`).
use vstd::prelude::*;

verus! {

#[derive(Clone, Copy, Debug, PartialEq, Eq, Structural)]
pub struct FaceVertex {
    pub position: usize,
    pub texture: Option<usize>,
    pub normal: Option<usize>,
}

impl FaceVertex {
    pub fn new(position: usize, texture: Option<usize>, normal: Option<usize>) -> (r: FaceVertex)
        ensures
            r == (FaceVertex { position, texture, normal }),
    {
        FaceVertex { position, texture, normal }
    }
}

#[derive(Debug)]
pub struct Face {
    pub vertices: Vec<FaceVertex>,
}

impl Face {
    pub fn new(vertices: Vec<FaceVertex>) -> (r: Face)
        ensures
            r.vertices@ == vertices@,
    {
        Face { vertices }
    }

    pub fn vertex_count(&self) -> (r: usize)
        ensures
            r == self.vertices@.len(),
    {
        self.vertices.len()
    }
}


pub open spec fn is_digit(c: u8) -> bool {
    0x30 <= c <= 0x39
}

pub open spec fn is_space(c: u8) -> bool {
    c == 0x20 || c == 0x09
}

/// The value of a run of decimal digits.
pub open spec fn digits_value(s: Seq<u8>) -> int
    decreases s.len(),
{
    if s.len() == 0 {
        0
    } else {
        10 * digits_value(s.drop_last()) + (s.last() - 0x30)
    }
}

/// End of the run of digits of `t` that starts at `i`.
pub open spec fn run_end(t: Seq<u8>, i: int) -> int
    decreases t.len() - i,
{
    if 0 <= i < t.len() && is_digit(t[i]) {
        run_end(t, i + 1)
    } else {
        i
    }
}

/// `t[i..j]` is a non-empty run of digits whose value fits in a `usize`.
pub open spec fn index_ok(t: Seq<u8>, i: int, j: int) -> bool {
    j > i && digits_value(t.subrange(i, j)) <= usize::MAX
}

pub open spec fn index_value(t: Seq<u8>, i: int, j: int) -> usize {
    digits_value(t.subrange(i, j)) as usize
}

/// The corner a token writes: `p`, `p/t`, `p//n` or `p/t/n`.
pub open spec fn corner_of(t: Seq<u8>) -> Option<FaceVertex> {
    let e1 = run_end(t, 0);
    let p = index_value(t, 0, e1);
    if !index_ok(t, 0, e1) {
        None
    } else if e1 == t.len() {
        Some(FaceVertex { position: p, texture: None, normal: None })
    } else if t[e1] != 0x2f {
        None
    } else if e1 + 1 < t.len() && t[e1 + 1] == 0x2f {
        let e3 = run_end(t, e1 + 2);
        if index_ok(t, e1 + 2, e3) && e3 == t.len() {
            Some(FaceVertex { position: p, texture: None, normal: Some(index_value(t, e1 + 2, e3)) })
        } else {
            None
        }
    } else {
        let e2 = run_end(t, e1 + 1);
        let tx = index_value(t, e1 + 1, e2);
        if !index_ok(t, e1 + 1, e2) {
            None
        } else if e2 == t.len() {
            Some(FaceVertex { position: p, texture: Some(tx), normal: None })
        } else if t[e2] != 0x2f {
            None
        } else {
            let e3 = run_end(t, e2 + 1);
            if index_ok(t, e2 + 1, e3) && e3 == t.len() {
                Some(FaceVertex { position: p, texture: Some(tx), normal: Some(index_value(t, e2 + 1, e3)) })
            } else {
                None
            }
        }
    }
}

proof fn lemma_run_end_bounds(t: Seq<u8>, i: int)
    requires
        0 <= i <= t.len(),
    ensures
        i <= run_end(t, i) <= t.len(),
        forall|k: int| i <= k < run_end(t, i) ==> is_digit(#[trigger] t[k]),
        run_end(t, i) < t.len() ==> !is_digit(t[run_end(t, i)]),
    decreases t.len() - i,
{
    if i < t.len() && is_digit(t[i]) {
        lemma_run_end_bounds(t, i + 1);
    }
}

/// Reads the run of digits at `i`: its end, and its value when the run is
/// non-empty and the value fits.
fn parse_index(t: &[u8], i: usize) -> (r: (usize, Option<usize>))
    requires
        i <= t@.len(),
    ensures
        r.0 == run_end(t@, i as int),
        r.1 == if index_ok(t@, i as int, r.0 as int) {
            Some(index_value(t@, i as int, r.0 as int))
        } else {
            None::<usize>
        },
{
    proof {
        lemma_run_end_bounds(t@, i as int);
    }
    let mut k: usize = i;
    let mut acc: usize = 0;
    let mut overflow = false;
    while k < t.len() && t[k] >= 0x30 && t[k] <= 0x39
        invariant
            i <= k <= run_end(t@, i as int),
            run_end(t@, i as int) <= t@.len(),
            run_end(t@, k as int) == run_end(t@, i as int),
            !overflow ==> acc == digits_value(t@.subrange(i as int, k as int)),
            overflow ==> digits_value(t@.subrange(i as int, k as int)) > usize::MAX,
            digits_value(t@.subrange(i as int, k as int)) >= 0,
        decreases t@.len() - k,
    {
        let d = (t[k] - 0x30) as usize;
        proof {
            lemma_run_end_bounds(t@, k + 1);
            assert(run_end(t@, k as int) == run_end(t@, k + 1));
        }
        let ghost prev = digits_value(t@.subrange(i as int, k as int));
        assert(t@.subrange(i as int, k + 1).drop_last() =~= t@.subrange(i as int, k as int));
        assert(digits_value(t@.subrange(i as int, k + 1)) == 10 * prev + d);
        if !overflow {
            if acc > (usize::MAX - d) / 10 {
                assert(10 * acc + d > usize::MAX) by (nonlinear_arith)
                    requires
                        acc > (usize::MAX - d) / 10,
                        d <= 9,
                ;
                overflow = true;
            } else {
                assert(10 * acc + d <= usize::MAX) by (nonlinear_arith)
                    requires
                        acc <= (usize::MAX - d) / 10,
                        d <= 9,
                ;
                acc = 10 * acc + d;
            }
        }
        k = k + 1;
    }
    if k == i || overflow {
        (k, None)
    } else {
        (k, Some(acc))
    }
}


/// Parses one corner token of a face line.
pub fn parse_corner(t: &[u8]) -> (r: Option<FaceVertex>)
    ensures
        r == corner_of(t@),
{
    let len = t.len();
    let (e1, p) = parse_index(t, 0);
    proof {
        lemma_run_end_bounds(t@, 0);
    }
    let p = match p {
        Some(p) => p,
        None => {
            return None;
        },
    };
    if e1 == len {
        return Some(FaceVertex { position: p, texture: None, normal: None });
    }
    if t[e1] != 0x2f {
        return None;
    }
    if e1 + 1 < len && t[e1 + 1] == 0x2f {
        let (e3, n) = parse_index(t, e1 + 2);
        return match n {
            Some(n) => if e3 == len {
                Some(FaceVertex { position: p, texture: None, normal: Some(n) })
            } else {
                None
            },
            None => None,
        };
    }
    let (e2, tx) = parse_index(t, e1 + 1);
    proof {
        lemma_run_end_bounds(t@, e1 + 1);
    }
    let tx = match tx {
        Some(tx) => tx,
        None => {
            return None;
        },
    };
    if e2 == len {
        return Some(FaceVertex { position: p, texture: Some(tx), normal: None });
    }
    if t[e2] != 0x2f {
        return None;
    }
    let (e3, n) = parse_index(t, e2 + 1);
    match n {
        Some(n) => if e3 == len {
            Some(FaceVertex { position: p, texture: Some(tx), normal: Some(n) })
        } else {
            None
        },
        None => None,
    }
}


/// First position at or after `i` that is not a space.
pub open spec fn skip_spaces(t: Seq<u8>, i: int) -> int
    decreases t.len() - i,
{
    if 0 <= i < t.len() && is_space(t[i]) {
        skip_spaces(t, i + 1)
    } else {
        i
    }
}

/// First position at or after `i` that is a space, or the end.
pub open spec fn token_end(t: Seq<u8>, i: int) -> int
    decreases t.len() - i,
{
    if 0 <= i < t.len() && !is_space(t[i]) {
        token_end(t, i + 1)
    } else {
        i
    }
}

proof fn lemma_skip_spaces(t: Seq<u8>, i: int)
    requires
        0 <= i <= t.len(),
    ensures
        i <= skip_spaces(t, i) <= t.len(),
        skip_spaces(t, i) < t.len() ==> !is_space(t[skip_spaces(t, i)]),
    decreases t.len() - i,
{
    if i < t.len() && is_space(t[i]) {
        lemma_skip_spaces(t, i + 1);
    }
}

proof fn lemma_token_end(t: Seq<u8>, i: int)
    requires
        0 <= i <= t.len(),
    ensures
        i <= token_end(t, i) <= t.len(),
        i < t.len() && !is_space(t[i]) ==> i < token_end(t, i),
        token_end(t, i) < t.len() ==> is_space(t[token_end(t, i)]),
    decreases t.len() - i,
{
    if i < t.len() && !is_space(t[i]) {
        lemma_token_end(t, i + 1);
    }
}

/// The corners written from position `i` on: space-separated tokens, each a
/// corner, up to the end of the line.
pub open spec fn corners_from(t: Seq<u8>, i: int) -> Option<Seq<FaceVertex>>
    decreases t.len() - i,
    via corners_from_decreases
{
    if i < 0 || i > t.len() {
        None
    } else {
        let j = skip_spaces(t, i);
        if j >= t.len() {
            Some(Seq::empty())
        } else {
            let k = token_end(t, j);
            match corner_of(t.subrange(j, k)) {
                None => None,
                Some(c) => match corners_from(t, k) {
                    None => None,
                    Some(rest) => Some(seq![c] + rest),
                },
            }
        }
    }
}

#[via_fn]
proof fn corners_from_decreases(t: Seq<u8>, i: int) {
    if 0 <= i <= t.len() {
        lemma_skip_spaces(t, i);
        let j = skip_spaces(t, i);
        if j < t.len() {
            lemma_token_end(t, j);
        }
    }
}

/// The corners of a face line: `f`, then one or more corners, each after
/// spaces or tabs; the line ending is not part of the line.
pub open spec fn face_of(t: Seq<u8>) -> Option<Seq<FaceVertex>> {
    if t.len() >= 2 && t[0] == 0x66 && is_space(t[1]) && corners_from(t, 1) is Some
        && corners_from(t, 1)->Some_0.len() > 0 {
        corners_from(t, 1)
    } else {
        None
    }
}

/// Parses a face line.
pub fn parse_face(t: &[u8]) -> (r: Option<Face>)
    ensures
        r is Some <==> face_of(t@) is Some,
        r is Some ==> r->Some_0.vertices@ == face_of(t@)->Some_0,
{
    let len = t.len();
    if len < 2 || t[0] != 0x66 || !(t[1] == 0x20 || t[1] == 0x09) {
        return None;
    }
    let mut corners: Vec<FaceVertex> = Vec::new();
    let mut i: usize = 1;
    loop
        invariant
            len == t@.len(),
            1 <= i <= len,
            corners_from(t@, 1) is Some <==> corners_from(t@, i as int) is Some,
            corners_from(t@, i as int) is Some ==> corners_from(t@, 1)->Some_0 == corners@ + corners_from(
                t@,
                i as int,
            )->Some_0,
        ensures
            corners_from(t@, 1) == Some(corners@),
        decreases len - i,
    {
        proof {
            lemma_skip_spaces(t@, i as int);
        }
        let mut j = i;
        while j < len && (t[j] == 0x20 || t[j] == 0x09)
            invariant
                i <= j <= len,
                len == t@.len(),
                skip_spaces(t@, j as int) == skip_spaces(t@, i as int),
            decreases len - j,
        {
            j = j + 1;
        }
        if j == len {
            assert(corners_from(t@, i as int)->Some_0 =~= Seq::<FaceVertex>::empty());
            assert(corners@ + Seq::<FaceVertex>::empty() =~= corners@);
            break;
        }
        proof {
            lemma_token_end(t@, j as int);
        }
        let mut k = j;
        let mut token: Vec<u8> = Vec::new();
        while k < len && !(t[k] == 0x20 || t[k] == 0x09)
            invariant
                j <= k <= len,
                len == t@.len(),
                token_end(t@, k as int) == token_end(t@, j as int),
                token@ =~= t@.subrange(j as int, k as int),
            decreases len - k,
        {
            token.push(t[k]);
            k = k + 1;
        }
        match parse_corner(token.as_slice()) {
            None => {
                return None;
            },
            Some(c) => {
                proof {
                    let rest = corners_from(t@, k as int);
                    if rest is Some {
                        assert(corners@.push(c) + rest->Some_0 =~= corners@ + (seq![c] + rest->Some_0));
                    }
                }
                corners.push(c);
                i = k;
            },
        }
    }
    if corners.len() == 0 {
        return None;
    }
    Some(Face { vertices: corners })
}

} // verus!
