//! Windows path rules, on path text.
//!
//! The application keeps its paths as Windows paths whatever machine runs
//! the library, so the rules are written out here. A path may start with a
//! prefix:
//! - a verbatim prefix, `\\?\` and then `UNC\server\share`, a drive such as
//!   `C:`, or one component; inside a verbatim path only `\` separates;
//! - a device prefix, `\\.\` and one component;
//! - a UNC prefix, `\\server\share`, where both parts are present;
//! - a disk designator such as `C:`.
//!
//! Elsewhere both `\` and `/` separate components. A path has a root when a
//! separator follows its prefix; every prefix but a disk designator implies
//! one. A path is absolute when it has both a prefix and a root.
use vstd::prelude::*;

use crate::text::{chars_of, push_char, push_str, split_on, split_ranges};

verus! {

pub open spec fn is_separator(c: char) -> bool {
    c == '\\' || c == '/'
}

pub open spec fn is_ascii_letter(c: char) -> bool {
    ('A' <= c <= 'Z') || ('a' <= c <= 'z')
}

/// Whether `c` separates components: only `\` inside a verbatim path.
pub open spec fn separates(c: char, verbatim: bool) -> bool {
    if verbatim {
        c == '\\'
    } else {
        is_separator(c)
    }
}

/// The position of the first separator at or after `i`, or the length.
pub open spec fn next_separator(p: Seq<char>, i: int, verbatim: bool) -> int
    decreases p.len() - i,
{
    if i < 0 || i >= p.len() {
        p.len() as int
    } else if separates(p[i], verbatim) {
        i
    } else {
        next_separator(p, i + 1, verbatim)
    }
}

/// Two separators open the path.
pub open spec fn starts_with_two_separators(p: Seq<char>) -> bool {
    p.len() >= 2 && is_separator(p[0]) && is_separator(p[1])
}

/// `\\?\` opens the path.
pub open spec fn has_verbatim_prefix(p: Seq<char>) -> bool {
    p.len() >= 4 && p[0] == '\\' && p[1] == '\\' && p[2] == '?' && p[3] == '\\'
}

/// `\\.\` (with either separator) opens the path.
pub open spec fn has_device_prefix(p: Seq<char>) -> bool {
    p.len() >= 4 && is_separator(p[0]) && is_separator(p[1]) && p[2] == '.' && is_separator(p[3])
}

/// Where the server part of a `\\server\share` prefix ends.
pub open spec fn unc_server_end(p: Seq<char>) -> int {
    next_separator(p, 2, false)
}

/// Where the share part of a `\\server\share` prefix ends.
pub open spec fn unc_share_end(p: Seq<char>) -> int {
    next_separator(p, unc_server_end(p) + 1, false)
}

/// `\\server\share`, with a server and a share that are not empty.
pub open spec fn has_unc_prefix(p: Seq<char>) -> bool {
    &&& starts_with_two_separators(p)
    &&& !has_verbatim_prefix(p)
    &&& !has_device_prefix(p)
    &&& unc_server_end(p) > 2
    &&& unc_server_end(p) < p.len()
    &&& unc_share_end(p) > unc_server_end(p) + 1
}

/// A disk designator such as `C:` opens the path.
pub open spec fn has_disk_prefix(p: Seq<char>) -> bool {
    !starts_with_two_separators(p) && p.len() >= 2 && is_ascii_letter(p[0]) && p[1] == ':'
}

pub open spec fn has_prefix(p: Seq<char>) -> bool {
    has_verbatim_prefix(p) || has_device_prefix(p) || has_unc_prefix(p) || has_disk_prefix(p)
}

/// The length of a verbatim prefix: `\\?\UNC\server\share` (the share and
/// its separator only where the share is not empty), `\\?\C:` where the
/// drive is followed by `\` or ends the path, or `\\?\` and one component.
pub open spec fn verbatim_prefix_len(p: Seq<char>) -> int {
    if p.len() >= 8 && p[4] == 'U' && p[5] == 'N' && p[6] == 'C' && p[7] == '\\' {
        let server_end = next_separator(p, 8, true);
        if server_end >= p.len() {
            p.len() as int
        } else {
            let share_end = next_separator(p, server_end + 1, true);
            if share_end > server_end + 1 {
                share_end
            } else {
                server_end
            }
        }
    } else if p.len() >= 6 && is_ascii_letter(p[4]) && p[5] == ':' && (p.len() == 6 || p[6]
        == '\\') {
        6
    } else {
        next_separator(p, 4, true)
    }
}

/// The length of the prefix, zero where there is none.
pub open spec fn prefix_len(p: Seq<char>) -> int {
    if has_verbatim_prefix(p) {
        verbatim_prefix_len(p)
    } else if has_device_prefix(p) {
        next_separator(p, 4, false)
    } else if has_unc_prefix(p) {
        unc_share_end(p)
    } else if has_disk_prefix(p) {
        2
    } else {
        0
    }
}

/// A separator follows the prefix (or opens a path without one).
pub open spec fn has_physical_root(p: Seq<char>) -> bool {
    prefix_len(p) < p.len() && is_separator(p[prefix_len(p)])
}

/// A root: a separator after the prefix, or a prefix that implies one (all
/// but a disk designator).
pub open spec fn has_root(p: Seq<char>) -> bool {
    (has_prefix(p) && !has_disk_prefix(p)) || has_physical_root(p)
}

/// An absolute path: a prefix and a root.
pub open spec fn is_absolute(p: Seq<char>) -> bool {
    has_prefix(p) && has_root(p)
}

/// Whether a separator goes between `base` and a relative path joined onto
/// it: `base` is not empty, does not end in a separator, and is not a bare
/// disk designator.
pub open spec fn needs_separator(base: Seq<char>) -> bool {
    base.len() > 0 && !is_separator(base.last()) && !(has_disk_prefix(base) && base.len() == 2)
}

/// A component that is neither `.` nor `..`.
pub open spec fn is_normal_component(c: Seq<char>) -> bool {
    c != seq!['.'] && c != seq!['.', '.']
}

/// The components among the pieces between separators: every piece that is
/// not empty.
pub open spec fn kept_components(pieces: Seq<Seq<char>>) -> Seq<Seq<char>>
    decreases pieces.len(),
{
    if pieces.len() == 0 {
        Seq::empty()
    } else if pieces.last().len() == 0 {
        kept_components(pieces.drop_last())
    } else {
        kept_components(pieces.drop_last()).push(pieces.last())
    }
}

/// Whether the path being built has a root, and its components after the
/// prefix.
pub type PathState = (bool, Seq<Seq<char>>);

/// One piece of a joined path applied to the path being built: an empty
/// piece and `.` change nothing; `..` removes the last component where it is
/// an ordinary one; any other piece is added.
pub open spec fn apply_piece(state: PathState, piece: Seq<char>) -> PathState {
    if piece.len() == 0 || piece == seq!['.'] {
        state
    } else if piece == seq!['.', '.'] {
        if state.1.len() > 0 && is_normal_component(state.1.last()) {
            (state.0, state.1.drop_last())
        } else {
            state
        }
    } else {
        (state.0, state.1.push(piece))
    }
}

pub open spec fn apply_pieces(state: PathState, pieces: Seq<Seq<char>>) -> PathState
    decreases pieces.len(),
{
    if pieces.len() == 0 {
        state
    } else {
        apply_piece(apply_pieces(state, pieces.drop_last()), pieces.last())
    }
}

/// The text with each `/` turned into `\`.
pub open spec fn backslashed(p: Seq<char>) -> Seq<char> {
    p.map_values(|c: char| if c == '/' { '\\' } else { c })
}

/// Components written one after another, a `\` between two.
pub open spec fn joined_components(comps: Seq<Seq<char>>) -> Seq<char>
    decreases comps.len(),
{
    if comps.len() == 0 {
        Seq::empty()
    } else if comps.len() == 1 {
        comps[0]
    } else {
        joined_components(comps.drop_last()) + seq!['\\'] + comps.last()
    }
}

/// A path written from its prefix, root and components: a `\` follows the
/// prefix where a root or a component does.
pub open spec fn rendered(prefix: Seq<char>, state: PathState) -> Seq<char> {
    prefix + (if state.0 || state.1.len() > 0 {
        seq!['\\']
    } else {
        Seq::<char>::empty()
    }) + joined_components(state.1)
}

/// The root and components of a verbatim base, as it stands.
pub open spec fn verbatim_base_state(base: Seq<char>) -> PathState {
    let k = prefix_len(base);
    let root = has_physical_root(base);
    let rest = base.skip(if root { k + 1 } else { k });
    (root, kept_components(split_on(rest, '\\')))
}

/// A path without a prefix joined onto a verbatim base: the base's own
/// components, or none where the path has a root, then the path's pieces
/// applied in order (`.` dropped, `..` removing an ordinary component), all
/// written out again after the base's prefix.
pub open spec fn verbatim_join(base: Seq<char>, p: Seq<char>) -> Seq<char> {
    let start = if p.len() > 0 && is_separator(p[0]) {
        (true, Seq::<Seq<char>>::empty())
    } else {
        verbatim_base_state(base)
    };
    rendered(base.take(prefix_len(base)), apply_pieces(start, split_on(backslashed(p), '\\')))
}

/// A path joined onto `base`: a path with a prefix replaces `base`; onto a
/// verbatim base, a path that is not empty is joined by `verbatim_join`;
/// otherwise a path with a root keeps only the prefix of `base`, and any
/// other path is appended, after a `\` where `needs_separator` says so.
pub open spec fn join(base: Seq<char>, p: Seq<char>) -> Seq<char> {
    if has_prefix(p) {
        p
    } else if has_verbatim_prefix(base) && p.len() > 0 {
        verbatim_join(base, p)
    } else if has_root(p) {
        base.take(prefix_len(base)) + p
    } else if needs_separator(base) {
        base.push('\\') + p
    } else {
        base + p
    }
}

// ---------------------------------------------------------------------------
// Computing the rules
// ---------------------------------------------------------------------------

fn char_is_separator(c: char) -> (r: bool)
    ensures
        r == is_separator(c),
{
    c == '\\' || c == '/'
}

fn char_separates(c: char, verbatim: bool) -> (r: bool)
    ensures
        r == separates(c, verbatim),
{
    if verbatim {
        c == '\\'
    } else {
        char_is_separator(c)
    }
}

fn char_is_ascii_letter(c: char) -> (r: bool)
    ensures
        r == is_ascii_letter(c),
{
    ('A' <= c && c <= 'Z') || ('a' <= c && c <= 'z')
}

fn next_separator_exec(cs: &Vec<char>, i: usize, verbatim: bool) -> (r: usize)
    requires
        i <= cs@.len(),
    ensures
        r == next_separator(cs@, i as int, verbatim),
        i <= r <= cs@.len(),
{
    let mut j = i;
    while j < cs.len() && !char_separates(cs[j], verbatim)
        invariant
            i <= j <= cs@.len(),
            next_separator(cs@, i as int, verbatim) == next_separator(cs@, j as int, verbatim),
        decreases cs@.len() - j,
    {
        j = j + 1;
    }
    j
}

fn starts_with_two_separators_exec(cs: &Vec<char>) -> (r: bool)
    ensures
        r == starts_with_two_separators(cs@),
{
    cs.len() >= 2 && char_is_separator(cs[0]) && char_is_separator(cs[1])
}

fn has_verbatim_prefix_exec(cs: &Vec<char>) -> (r: bool)
    ensures
        r == has_verbatim_prefix(cs@),
{
    cs.len() >= 4 && cs[0] == '\\' && cs[1] == '\\' && cs[2] == '?' && cs[3] == '\\'
}

fn has_device_prefix_exec(cs: &Vec<char>) -> (r: bool)
    ensures
        r == has_device_prefix(cs@),
{
    cs.len() >= 4 && char_is_separator(cs[0]) && char_is_separator(cs[1]) && cs[2] == '.'
        && char_is_separator(cs[3])
}

fn has_unc_prefix_exec(cs: &Vec<char>) -> (r: bool)
    ensures
        r == has_unc_prefix(cs@),
{
    if !starts_with_two_separators_exec(cs) || has_verbatim_prefix_exec(cs)
        || has_device_prefix_exec(cs) {
        return false;
    }
    let server_end = next_separator_exec(cs, 2, false);
    if server_end <= 2 || server_end >= cs.len() {
        return false;
    }
    let share_end = next_separator_exec(cs, server_end + 1, false);
    share_end > server_end + 1
}

fn has_disk_prefix_exec(cs: &Vec<char>) -> (r: bool)
    ensures
        r == has_disk_prefix(cs@),
{
    !starts_with_two_separators_exec(cs) && cs.len() >= 2 && char_is_ascii_letter(cs[0]) && cs[1]
        == ':'
}

fn has_prefix_exec(cs: &Vec<char>) -> (r: bool)
    ensures
        r == has_prefix(cs@),
{
    has_verbatim_prefix_exec(cs) || has_device_prefix_exec(cs) || has_unc_prefix_exec(cs)
        || has_disk_prefix_exec(cs)
}

fn verbatim_prefix_len_exec(cs: &Vec<char>) -> (r: usize)
    requires
        has_verbatim_prefix(cs@),
    ensures
        r == verbatim_prefix_len(cs@),
        r <= cs@.len(),
{
    let n = cs.len();
    if n >= 8 && cs[4] == 'U' && cs[5] == 'N' && cs[6] == 'C' && cs[7] == '\\' {
        let server_end = next_separator_exec(cs, 8, true);
        if server_end >= n {
            n
        } else {
            let share_end = next_separator_exec(cs, server_end + 1, true);
            if share_end > server_end + 1 {
                share_end
            } else {
                server_end
            }
        }
    } else if n >= 6 && char_is_ascii_letter(cs[4]) && cs[5] == ':' && (n == 6 || cs[6] == '\\') {
        6
    } else {
        next_separator_exec(cs, 4, true)
    }
}

fn prefix_len_exec(cs: &Vec<char>) -> (r: usize)
    ensures
        r == prefix_len(cs@),
        r <= cs@.len(),
{
    if has_verbatim_prefix_exec(cs) {
        verbatim_prefix_len_exec(cs)
    } else if has_device_prefix_exec(cs) {
        next_separator_exec(cs, 4, false)
    } else if has_unc_prefix_exec(cs) {
        let server_end = next_separator_exec(cs, 2, false);
        let n = cs.len();
        assert(server_end < n);
        next_separator_exec(cs, server_end + 1, false)
    } else if has_disk_prefix_exec(cs) {
        2
    } else {
        0
    }
}

fn has_physical_root_exec(cs: &Vec<char>) -> (r: bool)
    ensures
        r == has_physical_root(cs@),
{
    let k = prefix_len_exec(cs);
    k < cs.len() && char_is_separator(cs[k])
}

fn has_root_exec(cs: &Vec<char>) -> (r: bool)
    ensures
        r == has_root(cs@),
{
    (has_prefix_exec(cs) && !has_disk_prefix_exec(cs)) || has_physical_root_exec(cs)
}

/// Whether a path text is absolute.
pub fn is_absolute_path(p: &str) -> (r: bool)
    ensures
        r == is_absolute(p@),
{
    let cs = chars_of(p);
    has_prefix_exec(&cs) && has_root_exec(&cs)
}

fn chars_in(cs: &Vec<char>, lo: usize, hi: usize) -> (r: Vec<char>)
    requires
        lo <= hi <= cs@.len(),
    ensures
        r@ == cs@.subrange(lo as int, hi as int),
{
    let mut r: Vec<char> = Vec::new();
    let mut i = lo;
    while i < hi
        invariant
            lo <= i <= hi <= cs@.len(),
            r@ == cs@.subrange(lo as int, i as int),
        decreases hi - i,
    {
        r.push(cs[i]);
        proof {
            assert(cs@.subrange(lo as int, i + 1) =~= cs@.subrange(lo as int, i as int).push(
                cs@[i as int],
            ));
        }
        i = i + 1;
    }
    r
}

fn push_chars(out: &mut String, v: &Vec<char>)
    ensures
        final(out)@ == old(out)@ + v@,
{
    let mut i: usize = 0;
    while i < v.len()
        invariant
            i <= v@.len(),
            out@ == old(out)@ + v@.take(i as int),
        decreases v@.len() - i,
    {
        push_char(out, v[i]);
        proof {
            assert(v@.take(i + 1) =~= v@.take(i as int).push(v@[i as int]));
        }
        i = i + 1;
    }
    proof {
        assert(v@.take(v@.len() as int) =~= v@);
    }
}

fn is_single_dot(v: &Vec<char>) -> (r: bool)
    ensures
        r == (v@ == seq!['.']),
{
    let r = v.len() == 1 && v[0] == '.';
    proof {
        if v@.len() == 1 && v@[0] == '.' {
            assert(v@ =~= seq!['.']);
        }
    }
    r
}

fn is_double_dot(v: &Vec<char>) -> (r: bool)
    ensures
        r == (v@ == seq!['.', '.']),
{
    let r = v.len() == 2 && v[0] == '.' && v[1] == '.';
    proof {
        if v@.len() == 2 && v@[0] == '.' && v@[1] == '.' {
            assert(v@ =~= seq!['.', '.']);
        }
    }
    r
}

/// The components held, as sequences of characters.
pub open spec fn components_view(comps: Seq<Vec<char>>) -> Seq<Seq<char>> {
    comps.map_values(|c: Vec<char>| c@)
}

fn backslashed_exec(cs: &Vec<char>) -> (r: Vec<char>)
    ensures
        r@ == backslashed(cs@),
{
    let mut r: Vec<char> = Vec::new();
    let mut i: usize = 0;
    while i < cs.len()
        invariant
            i <= cs@.len(),
            r@ == backslashed(cs@.take(i as int)),
        decreases cs@.len() - i,
    {
        let c = if cs[i] == '/' {
            '\\'
        } else {
            cs[i]
        };
        r.push(c);
        proof {
            assert(backslashed(cs@.take(i + 1)) =~= backslashed(cs@.take(i as int)).push(c));
        }
        i = i + 1;
    }
    proof {
        assert(cs@.take(cs@.len() as int) =~= cs@);
    }
    r
}

fn verbatim_base_components(bs: &Vec<char>) -> (r: (bool, Vec<Vec<char>>))
    ensures
        r.0 == verbatim_base_state(bs@).0,
        components_view(r.1@) == verbatim_base_state(bs@).1,
{
    let k = prefix_len_exec(bs);
    let root = k < bs.len() && char_is_separator(bs[k]);
    let start = if root {
        k + 1
    } else {
        k
    };
    let rest = chars_in(bs, start, bs.len());
    assert(rest@ =~= bs@.skip(start as int));
    let ranges = split_ranges(&rest, '\\');
    let ghost pieces = split_on(rest@, '\\');
    let mut comps: Vec<Vec<char>> = Vec::new();
    let mut i: usize = 0;
    assert(pieces.take(0) =~= Seq::<Seq<char>>::empty());
    assert(components_view(comps@) =~= Seq::<Seq<char>>::empty());
    while i < ranges.len()
        invariant
            ranges@.len() == pieces.len(),
            pieces == split_on(rest@, '\\'),
            forall|j: int|
                #![trigger ranges@[j]]
                0 <= j < ranges@.len() ==> ranges@[j].0 <= ranges@[j].1 <= rest@.len()
                    && rest@.subrange(ranges@[j].0 as int, ranges@[j].1 as int) == pieces[j],
            i <= ranges@.len(),
            components_view(comps@) == kept_components(pieces.take(i as int)),
        decreases ranges@.len() - i,
    {
        let (lo, hi) = ranges[i];
        let piece = chars_in(&rest, lo, hi);
        proof {
            assert(pieces.take(i + 1).drop_last() =~= pieces.take(i as int));
            assert(pieces.take(i + 1).last() == pieces[i as int]);
        }
        if piece.len() > 0 {
            let ghost before = comps@;
            comps.push(piece);
            proof {
                assert(components_view(comps@) =~= components_view(before).push(pieces[i as int]));
            }
        }
        i = i + 1;
    }
    proof {
        assert(pieces.take(pieces.len() as int) =~= pieces);
    }
    (root, comps)
}

fn write_path(prefix: &Vec<char>, root: bool, comps: &Vec<Vec<char>>) -> (r: String)
    ensures
        r@ == rendered(prefix@, (root, components_view(comps@))),
{
    let mut out = String::new();
    push_chars(&mut out, prefix);
    let ghost lead: Seq<char> = if root || comps@.len() > 0 {
        seq!['\\']
    } else {
        Seq::<char>::empty()
    };
    if root || comps.len() > 0 {
        push_char(&mut out, '\\');
    }
    assert(out@ == prefix@ + lead);
    let ghost all = components_view(comps@);
    let mut j: usize = 0;
    assert(all.take(0) =~= Seq::<Seq<char>>::empty());
    while j < comps.len()
        invariant
            all == components_view(comps@),
            j <= comps@.len(),
            out@ == prefix@ + lead + joined_components(all.take(j as int)),
        decreases comps@.len() - j,
    {
        let ghost before = out@;
        if j > 0 {
            push_char(&mut out, '\\');
        }
        push_chars(&mut out, &comps[j]);
        proof {
            let t = all.take(j + 1);
            assert(t.drop_last() =~= all.take(j as int));
            assert(t.last() == comps@[j as int]@);
            if j == 0 {
                assert(t.len() == 1);
                assert(joined_components(all.take(0)) =~= Seq::<char>::empty());
                assert(out@ =~= prefix@ + lead + joined_components(t));
            } else {
                assert(out@ =~= prefix@ + lead + joined_components(t));
            }
        }
        j = j + 1;
    }
    proof {
        assert(all.take(comps@.len() as int) =~= all);
    }
    out
}

fn verbatim_join_exec(bs: &Vec<char>, ps: &Vec<char>) -> (r: String)
    ensures
        r@ == verbatim_join(bs@, ps@),
{
    let p_root = ps.len() > 0 && char_is_separator(ps[0]);
    let (mut root, mut comps) = if p_root {
        (true, Vec::new())
    } else {
        verbatim_base_components(bs)
    };
    let ghost start: PathState = if p_root {
        (true, Seq::<Seq<char>>::empty())
    } else {
        verbatim_base_state(bs@)
    };
    assert(p_root ==> components_view(comps@) =~= Seq::<Seq<char>>::empty());
    let pb = backslashed_exec(ps);
    let ranges = split_ranges(&pb, '\\');
    let ghost pieces = split_on(pb@, '\\');
    let mut i: usize = 0;
    assert(pieces.take(0) =~= Seq::<Seq<char>>::empty());
    while i < ranges.len()
        invariant
            ranges@.len() == pieces.len(),
            pieces == split_on(pb@, '\\'),
            forall|j: int|
                #![trigger ranges@[j]]
                0 <= j < ranges@.len() ==> ranges@[j].0 <= ranges@[j].1 <= pb@.len()
                    && pb@.subrange(ranges@[j].0 as int, ranges@[j].1 as int) == pieces[j],
            i <= ranges@.len(),
            (root, components_view(comps@)) == apply_pieces(start, pieces.take(i as int)),
        decreases ranges@.len() - i,
    {
        let (lo, hi) = ranges[i];
        let piece = chars_in(&pb, lo, hi);
        let ghost state = apply_pieces(start, pieces.take(i as int));
        proof {
            assert(pieces.take(i + 1).drop_last() =~= pieces.take(i as int));
            assert(pieces.take(i + 1).last() == pieces[i as int]);
            assert(piece@ == pieces[i as int]);
        }
        if piece.len() == 0 || is_single_dot(&piece) {
        } else if is_double_dot(&piece) {
            let n = comps.len();
            if n > 0 {
                proof {
                    assert(components_view(comps@).last() == comps@[n - 1]@);
                }
                if !is_single_dot(&comps[n - 1]) && !is_double_dot(&comps[n - 1]) {
                    let ghost before = comps@;
                    comps.pop();
                    proof {
                        assert(components_view(comps@) =~= components_view(before).drop_last());
                    }
                }
            }
        } else {
            let ghost before = comps@;
            comps.push(piece);
            proof {
                assert(components_view(comps@) =~= components_view(before).push(pieces[i as int]));
            }
        }
        i = i + 1;
    }
    proof {
        assert(pieces.take(pieces.len() as int) =~= pieces);
    }
    let k = prefix_len_exec(bs);
    let prefix = chars_in(bs, 0, k);
    assert(prefix@ =~= bs@.take(k as int));
    write_path(&prefix, root, &comps)
}

/// Joins a path text onto a base path text.
pub fn join_path(base: &str, p: &str) -> (r: String)
    ensures
        r@ == join(base@, p@),
{
    let ps = chars_of(p);
    let bs = chars_of(base);
    if has_prefix_exec(&ps) {
        return p.to_owned();
    }
    if has_verbatim_prefix_exec(&bs) && ps.len() > 0 {
        return verbatim_join_exec(&bs, &ps);
    }
    if has_root_exec(&ps) {
        let k = prefix_len_exec(&bs);
        let prefix = chars_in(&bs, 0, k);
        assert(prefix@ =~= bs@.take(k as int));
        let mut r = String::new();
        push_chars(&mut r, &prefix);
        push_str(&mut r, p);
        return r;
    }
    let n = bs.len();
    let needs = n > 0 && !char_is_separator(bs[n - 1]) && !(has_disk_prefix_exec(&bs) && n == 2);
    let mut r = base.to_owned();
    if needs {
        push_char(&mut r, '\\');
    }
    push_str(&mut r, p);
    r
}

/// A relative path, joined onto a base that is not verbatim, lands under
/// that base: the result starts with the whole base text.
pub proof fn lemma_relative_join_extends_base(base: Seq<char>, p: Seq<char>)
    requires
        !has_prefix(p),
        !has_root(p),
        !has_verbatim_prefix(base),
    ensures
        join(base, p).take(base.len() as int) == base,
        join(base, p).len() >= base.len() + p.len(),
{
    assert(join(base, p).take(base.len() as int) =~= base);
}

/// Every path on a drive, a letter `A` to `Z` or `a` to `z`, a colon and a
/// separator, is absolute, and joining it onto any base gives it back
/// unchanged.
pub proof fn lemma_drive_paths_are_absolute(drive: char, sep: char, rest: Seq<char>, base: Seq<char>)
    requires
        ('A' <= drive <= 'Z') || ('a' <= drive <= 'z'),
        sep == '\\' || sep == '/',
    ensures
        is_absolute(seq![drive, ':', sep] + rest),
        join(base, seq![drive, ':', sep] + rest) == seq![drive, ':', sep] + rest,
{
    let p = seq![drive, ':', sep] + rest;
    assert(p[0] == drive && p[1] == ':' && p[2] == sep);
    assert(!starts_with_two_separators(p));
    assert(has_disk_prefix(p));
    assert(prefix_len(p) == 2);
    assert(has_physical_root(p));
}

/// A path with a prefix is kept as it is, whatever it is joined onto.
pub proof fn lemma_join_keeps_prefixed_path(base: Seq<char>, p: Seq<char>)
    requires
        has_prefix(p),
    ensures
        join(base, p) == p,
{
}

} // verus!
