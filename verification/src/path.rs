//! Paths as text, read as a platform reads them: components between separators, compared one by
//! one. Windows paths may begin with a drive, a share or a device.

use crate::path_prefix;
use crate::path_prefix::{Prefix, PrefixModel};
use crate::platform;
use crate::platform::Platform;
use crate::text;
use vstd::prelude::*;
use vstd::string::StringExecFns;

verus! {

/// Where single dots between separators are components.
#[derive(Debug, Clone, Copy, PartialEq, Eq, Structural)]
pub enum Dots {
    Never,
    AtTheBeginning,
    Always,
}

/// The piece at `i` counts as a component: it is not empty, and a single dot only where it is one.
pub open spec fn is_part(pieces: Seq<Seq<char>>, i: int, dots: Dots) -> bool {
    pieces[i].len() > 0 && (pieces[i] != "."@ || dots == Dots::Always || (dots
        == Dots::AtTheBeginning && i == 0))
}

/// The components among the pieces from `i` on.
pub open spec fn parts_from(pieces: Seq<Seq<char>>, i: int, dots: Dots) -> Seq<Seq<char>>
    decreases pieces.len() - i,
{
    if i < 0 || i >= pieces.len() {
        seq![]
    } else if is_part(pieces, i, dots) {
        seq![pieces[i]] + parts_from(pieces, i + 1, dots)
    } else {
        parts_from(pieces, i + 1, dots)
    }
}

/// The end of the prefix of a path.
pub open spec fn prefix_end(platform: Platform, path: Seq<char>) -> int {
    path_prefix::prefix_len(path_prefix::prefix_of(platform, path)) as int
}

/// Whether a separator follows the prefix of a path, or begins a path without one.
pub open spec fn has_leading_separator(platform: Platform, path: Seq<char>) -> bool {
    prefix_end(platform, path) < path.len() && platform::separates(
        platform,
        path[prefix_end(platform, path)],
    )
}

/// Whether a path starts at a root.
pub open spec fn is_rooted(platform: Platform, path: Seq<char>) -> bool {
    has_leading_separator(platform, path) || path_prefix::implies_root(
        path_prefix::prefix_of(platform, path),
    )
}

/// Where the components after the prefix and the root begin.
pub open spec fn body_start(platform: Platform, path: Seq<char>) -> int {
    prefix_end(platform, path) + if has_leading_separator(platform, path) {
        1int
    } else {
        0
    }
}

/// Whether a path is taken literally.
pub open spec fn is_literal(platform: Platform, path: Seq<char>) -> bool {
    path_prefix::is_verbatim(path_prefix::prefix_of(platform, path))
}

/// Where single dots are components of a path: nowhere but at the beginning of one that has neither
/// prefix nor root, unless it is taken literally.
pub open spec fn path_dots(platform: Platform, path: Seq<char>) -> Dots {
    if is_literal(platform, path) {
        Dots::Always
    } else if path_prefix::prefix_of(platform, path) is None && !has_leading_separator(
        platform,
        path,
    ) {
        Dots::AtTheBeginning
    } else {
        Dots::Never
    }
}

/// The pieces of a text between separators.
pub open spec fn pieces_of(platform: Platform, literal: bool, s: Seq<char>) -> Seq<Seq<char>> {
    text::split_text(
        path_prefix::folded(platform, literal, s),
        platform::separator(platform),
    )
}

/// The pieces of a path between separators, after the prefix and the root.
pub open spec fn path_pieces(platform: Platform, path: Seq<char>) -> Seq<Seq<char>> {
    pieces_of(platform, is_literal(platform, path), path.skip(body_start(platform, path)))
}

/// The components of a path after the prefix and the root: repeated and trailing separators and
/// inner single dots count for nothing.
pub open spec fn path_parts(platform: Platform, path: Seq<char>) -> Seq<Seq<char>> {
    parts_from(path_pieces(platform, path), 0, path_dots(platform, path))
}

/// The components of a path: its prefix, its root, and those that follow.
#[verifier::ext_equal]
pub struct PathModel {
    pub prefix: Option<PrefixModel>,
    pub rooted: bool,
    pub parts: Seq<Seq<char>>,
}

/// The components of a path.
pub open spec fn path_components(platform: Platform, path: Seq<char>) -> PathModel {
    PathModel {
        prefix: path_prefix::prefix_of(platform, path),
        rooted: is_rooted(platform, path),
        parts: path_parts(platform, path),
    }
}

impl PathModel {
    /// Whether there is nothing but a prefix, or nothing at all.
    pub open spec fn is_bare(self) -> bool {
        !self.rooted && self.parts.len() == 0
    }

    /// Whether the first components are those of `base`.
    pub open spec fn begins_with(self, base: PathModel) -> bool {
        if base.is_bare() {
            base.prefix is None || base.prefix == self.prefix
        } else {
            base.prefix == self.prefix && base.rooted == self.rooted && base.parts.is_prefix_of(
                self.parts,
            )
        }
    }
}

/// Two texts name the same path: their components are equal.
pub open spec fn same_path_text(platform: Platform, a: Seq<char>, b: Seq<char>) -> bool {
    path_components(platform, a) == path_components(platform, b)
}

/// What a path is made of.
struct Layout {
    prefix: Option<Prefix>,
    prefix_end: usize,
    rooted: bool,
    leading_separator: bool,
    start: usize,
    dots: Dots,
    pieces: Vec<String>,
}

impl Layout {
    /// Whether this is what a path is made of.
    spec fn is_of(self, platform: Platform, path: Seq<char>) -> bool {
        &&& path_prefix::prefix_option(self.prefix) == path_prefix::prefix_of(platform, path)
        &&& self.prefix_end == prefix_end(platform, path)
        &&& self.rooted == is_rooted(platform, path)
        &&& self.leading_separator == has_leading_separator(platform, path)
        &&& self.start == body_start(platform, path)
        &&& self.start <= path.len()
        &&& self.dots == path_dots(platform, path)
        &&& text::texts(self.pieces@) == path_pieces(platform, path)
    }
}

/// `chars[from..]` with one character for every separator.
fn fold(platform: Platform, literal: bool, chars: &Vec<char>, from: usize) -> (r: String)
    requires
        from <= chars@.len(),
    ensures
        r@ == path_prefix::folded(platform, literal, chars@.skip(from as int)),
{
    let mut r: String = String::new();
    let mut i: usize = from;
    while i < chars.len()
        invariant
            from <= i <= chars@.len(),
            r@ == path_prefix::folded(platform, literal, chars@.subrange(from as int, i as int)),
        decreases chars@.len() - i,
    {
        let ghost before = chars@.subrange(from as int, i as int);
        if platform == Platform::Windows && !literal && chars[i] == '/' {
            r.push('\\');
        } else {
            r.push(chars[i]);
        }
        assert(chars@.subrange(from as int, i + 1) =~= before.push(chars@[i as int]));
        assert(r@ =~= path_prefix::folded(platform, literal, before.push(chars@[i as int])));
        i = i + 1;
    }
    assert(chars@.subrange(from as int, i as int) =~= chars@.skip(from as int));
    r
}

/// What a path is made of.
fn layout(platform: Platform, chars: &Vec<char>) -> (r: Layout)
    ensures
        r.is_of(platform, chars@),
{
    let prefix = path_prefix::parse_prefix(platform, chars);
    let prefix_end: usize = path_prefix::prefix_length(platform, chars, &prefix);
    let leading_separator = prefix_end < chars.len() && platform::is_separator(
        platform,
        chars[prefix_end],
    );
    let (literal, implied_root) = match &prefix {
        Some(Prefix::Verbatim(_)) => (true, false),
        Some(Prefix::VerbatimShare(_, _)) => (true, false),
        Some(Prefix::VerbatimDisk(_)) => (true, false),
        Some(Prefix::Device(_)) => (false, true),
        Some(Prefix::Share(_, _)) => (false, true),
        Some(Prefix::Disk(_)) => (false, false),
        None => (false, false),
    };
    let dots = if literal {
        Dots::Always
    } else if prefix.is_none() && !leading_separator {
        Dots::AtTheBeginning
    } else {
        Dots::Never
    };
    let start: usize = if leading_separator {
        prefix_end + 1
    } else {
        prefix_end
    };
    let body = fold(platform, literal, chars, start);
    let pieces = text::split(body.as_str(), platform::main_separator(platform));
    Layout {
        prefix,
        prefix_end,
        rooted: leading_separator || implied_root,
        leading_separator,
        start,
        dots,
        pieces,
    }
}

/// Whether the piece at `i` counts as a component.
fn piece_is_part(pieces: &Vec<String>, i: usize, dots: Dots) -> (r: bool)
    requires
        i < pieces@.len(),
    ensures
        r == is_part(text::texts(pieces@), i as int, dots),
{
    !pieces[i].as_str().is_empty() && (dots == Dots::Always || (dots == Dots::AtTheBeginning && i
        == 0) || !text::same(pieces[i].as_str(), "."))
}

/// The components among pieces.
fn parts(pieces: &Vec<String>, dots: Dots) -> (r: Vec<String>)
    ensures
        text::texts(r@) == parts_from(text::texts(pieces@), 0, dots),
{
    let ghost all = text::texts(pieces@);
    let mut r: Vec<String> = Vec::new();
    let mut i: usize = 0;
    assert(text::texts(r@) + parts_from(all, 0, dots) =~= parts_from(all, 0, dots));
    while i < pieces.len()
        invariant
            i <= pieces@.len(),
            all == text::texts(pieces@),
            parts_from(all, 0, dots) == text::texts(r@) + parts_from(all, i as int, dots),
        decreases pieces@.len() - i,
    {
        let ghost before = text::texts(r@);
        if piece_is_part(pieces, i, dots) {
            r.push(pieces[i].clone());
            assert(text::texts(r@) =~= before + seq![all[i as int]]);
        }
        assert(parts_from(all, 0, dots) =~= text::texts(r@) + parts_from(all, i + 1, dots));
        i = i + 1;
    }
    assert(text::texts(r@) + parts_from(all, i as int, dots) =~= text::texts(r@));
    r
}

/// Whether the first components of `path` are those of `base`.
fn parts_start_with(path: &Vec<String>, base: &Vec<String>) -> (r: bool)
    ensures
        r == text::texts(base@).is_prefix_of(text::texts(path@)),
{
    if base.len() > path.len() {
        return false;
    }
    let ghost p = text::texts(path@);
    let ghost b = text::texts(base@);
    let mut i: usize = 0;
    while i < base.len()
        invariant
            i <= base@.len() <= path@.len(),
            p == text::texts(path@),
            b == text::texts(base@),
            forall|j: int| 0 <= j < i ==> p[j] == b[j],
        decreases base@.len() - i,
    {
        if !text::same(path[i].as_str(), base[i].as_str()) {
            assert(p.subrange(0, b.len() as int)[i as int] != b[i as int]);
            return false;
        }
        i = i + 1;
    }
    assert(b =~= p.subrange(0, b.len() as int));
    true
}

/// Whether two prefixes are the same, or both are missing.
fn same_prefixes(a: &Option<Prefix>, b: &Option<Prefix>) -> (r: bool)
    ensures
        r == (path_prefix::prefix_option(*a) == path_prefix::prefix_option(*b)),
{
    match (a, b) {
        (Some(x), Some(y)) => path_prefix::same_prefix(x, y),
        (None, None) => true,
        _ => false,
    }
}

/// Whether two texts name the same path.
pub fn same_path(platform: Platform, a: &str, b: &str) -> (r: bool)
    ensures
        r == same_path_text(platform, a@, b@),
{
    let x = layout(platform, &text::to_chars(a));
    let y = layout(platform, &text::to_chars(b));
    let first = parts(&x.pieces, x.dots);
    let second = parts(&y.pieces, y.dots);
    assert(path_parts(platform, a@).len() == first@.len());
    assert(path_parts(platform, b@).len() == second@.len());
    if first.len() != second.len() || x.rooted != y.rooted {
        return false;
    }
    let r = same_prefixes(&x.prefix, &y.prefix) && parts_start_with(&first, &second);
    assert(path_parts(platform, a@).subrange(0, path_parts(platform, a@).len() as int)
        =~= path_parts(platform, a@));
    r
}

/// The last component of a path, where it is a name.
pub open spec fn file_name_text(platform: Platform, path: Seq<char>) -> Option<Seq<char>> {
    let parts = path_parts(platform, path);
    if parts.len() == 0 || parts.last() == "."@ || parts.last() == ".."@ {
        None
    } else {
        Some(parts.last())
    }
}

/// The last component of a path, where it is a name.
pub fn file_name(platform: Platform, path: &str) -> (r: Option<String>)
    ensures
        text::text_option(r) == file_name_text(platform, path@),
{
    let at = layout(platform, &text::to_chars(path));
    let names = parts(&at.pieces, at.dots);
    if names.len() == 0 {
        return None;
    }
    let last: &String = &names[names.len() - 1];
    assert(path_parts(platform, path@).last() == last@);
    if text::same(last.as_str(), ".") || text::same(last.as_str(), "..") {
        None
    } else {
        Some(last.clone())
    }
}

/// The name of the project in a workspace: the last component of its path, or `workspace`.
pub open spec fn project_name_text(platform: Platform, workspace: Seq<char>) -> Seq<char> {
    match file_name_text(platform, workspace) {
        Some(name) => name,
        None => "workspace"@,
    }
}

/// The name of the project in a workspace.
pub fn project_name(platform: Platform, workspace: &str) -> (r: String)
    ensures
        r@ == project_name_text(platform, workspace@),
{
    match file_name(platform, workspace) {
        Some(name) => name,
        None => "workspace".to_owned(),
    }
}

/// The position of component number `k` among the pieces from `i` on, or their number.
pub open spec fn part_position(pieces: Seq<Seq<char>>, i: int, k: int, dots: Dots) -> int
    decreases pieces.len() - i,
{
    if i < 0 || i >= pieces.len() {
        pieces.len() as int
    } else if is_part(pieces, i, dots) && k <= 0 {
        i
    } else if is_part(pieces, i, dots) {
        part_position(pieces, i + 1, k - 1, dots)
    } else {
        part_position(pieces, i + 1, k, dots)
    }
}

/// A position, or the number of pieces.
proof fn lemma_part_position(pieces: Seq<Seq<char>>, i: int, k: int, dots: Dots)
    requires
        0 <= i <= pieces.len(),
        0 <= k,
    ensures
        i <= part_position(pieces, i, k, dots) <= pieces.len(),
        k < parts_from(pieces, i, dots).len() ==> part_position(pieces, i, k, dots) < pieces.len(),
        forall|m: int| 0 <= m <= k ==> #[trigger] part_position(pieces, i, m, dots)
            <= part_position(pieces, i, k, dots),
    decreases pieces.len() - i,
{
    if i < pieces.len() {
        if is_part(pieces, i, dots) {
            if k > 0 {
                lemma_part_position(pieces, i + 1, k - 1, dots);
                assert forall|m: int| 0 <= m <= k implies #[trigger] part_position(
                    pieces,
                    i,
                    m,
                    dots,
                ) <= part_position(pieces, i, k, dots) by {
                    if m > 0 {
                        assert(part_position(pieces, i + 1, m - 1, dots) <= part_position(
                            pieces,
                            i + 1,
                            k - 1,
                            dots,
                        ));
                    }
                }
            }
        } else {
            lemma_part_position(pieces, i + 1, k, dots);
            assert forall|m: int| 0 <= m <= k implies #[trigger] part_position(
                pieces,
                i,
                m,
                dots,
            ) <= part_position(pieces, i, k, dots) by {
                assert(part_position(pieces, i + 1, m, dots) <= part_position(
                    pieces,
                    i + 1,
                    k,
                    dots,
                ));
            }
        }
    }
}

/// The position of component number `k`, or the number of pieces.
fn find_part(pieces: &Vec<String>, k: usize, dots: Dots) -> (at: usize)
    ensures
        at == part_position(text::texts(pieces@), 0, k as int, dots),
{
    let ghost all = text::texts(pieces@);
    let mut i: usize = 0;
    let mut left: usize = k;
    while i < pieces.len()
        invariant
            i <= pieces@.len(),
            all == text::texts(pieces@),
            part_position(all, 0, k as int, dots) == part_position(
                all,
                i as int,
                left as int,
                dots,
            ),
        decreases pieces@.len() - i,
    {
        if piece_is_part(pieces, i, dots) {
            if left == 0 {
                return i;
            }
            left = left - 1;
        }
        i = i + 1;
    }
    i
}

/// Where the piece at `i` begins in the text that the pieces are of.
pub open spec fn piece_start(pieces: Seq<Seq<char>>, i: int) -> nat
    decreases i,
{
    if i <= 0 {
        0
    } else {
        piece_start(pieces, i - 1) + pieces[i - 1].len() + 1
    }
}

/// Where the piece at `i` ends in the text that the pieces are of.
pub open spec fn piece_end(pieces: Seq<Seq<char>>, i: int) -> nat {
    piece_start(pieces, i) + pieces[i].len()
}

/// Pieces behind another one begin later by its length and the separator.
proof fn lemma_piece_start_behind(first: Seq<char>, rest: Seq<Seq<char>>, i: int)
    requires
        0 <= i <= rest.len(),
    ensures
        piece_start(seq![first] + rest, i + 1) == first.len() + 1 + piece_start(rest, i),
    decreases i,
{
    let all = seq![first] + rest;
    reveal_with_fuel(piece_start, 2);
    if i > 0 {
        lemma_piece_start_behind(first, rest, i - 1);
        assert(all[i] == rest[i - 1]);
    }
}

/// The pieces of a text lie in it one behind the other.
proof fn lemma_piece_end(s: Seq<char>, separator: char, i: int)
    requires
        0 <= i < text::split_text(s, separator).len(),
    ensures
        piece_end(text::split_text(s, separator), i) <= s.len(),
        i == text::split_text(s, separator).len() - 1 ==> piece_end(
            text::split_text(s, separator),
            i,
        ) == s.len(),
    decreases s.len(),
{
    let at = text::find_char(s, separator);
    text::lemma_find_char(s, separator);
    if at < s.len() {
        let rest = s.skip(at + 1);
        text::lemma_join_split(rest, separator);
        let pieces = text::split_text(s, separator);
        if i > 0 {
            lemma_piece_end(rest, separator, i - 1);
            lemma_piece_start_behind(s.take(at), text::split_text(rest, separator), i - 1);
            assert(pieces[i] == text::split_text(rest, separator)[i - 1]);
        } else {
            assert(pieces[0] == s.take(at));
        }
    }
}

/// Later pieces begin later.
proof fn lemma_piece_order(pieces: Seq<Seq<char>>, i: int, j: int)
    requires
        0 <= i <= j < pieces.len(),
    ensures
        piece_start(pieces, i) <= piece_start(pieces, j),
        piece_start(pieces, i) <= piece_end(pieces, j),
    decreases j - i,
{
    if i < j {
        lemma_piece_order(pieces, i, j - 1);
    }
}

/// Where the piece at `at` begins in a text of which the pieces are.
fn start_of(pieces: &Vec<String>, at: usize, size: usize) -> (r: usize)
    requires
        at < pieces@.len(),
        piece_end(text::texts(pieces@), at as int) <= size,
    ensures
        r == piece_start(text::texts(pieces@), at as int),
{
    let ghost all = text::texts(pieces@);
    let mut r: usize = 0;
    let mut i: usize = 0;
    while i < at
        invariant
            i <= at < pieces@.len(),
            all == text::texts(pieces@),
            piece_end(all, at as int) <= size,
            r == piece_start(all, i as int),
        decreases at - i,
    {
        proof {
            lemma_piece_order(all, i + 1, at as int);
            assert(all[i as int] == pieces@[i as int]@);
            assert(piece_start(all, i + 1) == piece_start(all, i as int) + all[i as int].len() + 1);
        }
        r = r + text::to_chars(pieces[i].as_str()).len() + 1;
        i = i + 1;
    }
    r
}

/// Where the piece at `at` ends in a text of which the pieces are.
fn end_of(pieces: &Vec<String>, at: usize, size: usize) -> (r: usize)
    requires
        at < pieces@.len(),
        piece_end(text::texts(pieces@), at as int) <= size,
    ensures
        r == piece_end(text::texts(pieces@), at as int),
{
    assert(text::texts(pieces@)[at as int] == pieces@[at as int]@);
    start_of(pieces, at, size) + text::to_chars(pieces[at].as_str()).len()
}

/// The end of what stands before the components after the prefix and the root: a single dot behind
/// a drive belongs to it.
pub open spec fn bare_end(platform: Platform, path: Seq<char>) -> int {
    body_start(platform, path) + if path_dots(platform, path) == Dots::Never
        && !has_leading_separator(platform, path) && path_pieces(platform, path)[0] == "."@ {
        1int
    } else {
        0
    }
}

/// The end of component number `k` after the prefix and the root.
pub open spec fn part_end(platform: Platform, path: Seq<char>, k: int) -> int {
    let pieces = path_pieces(platform, path);
    body_start(platform, path) + piece_end(
        pieces,
        part_position(pieces, 0, k, path_dots(platform, path)),
    )
}

/// The end of the last component of a path.
pub open spec fn last_end(platform: Platform, path: Seq<char>) -> int {
    if path_parts(platform, path).len() == 0 {
        bare_end(platform, path)
    } else {
        part_end(platform, path, path_parts(platform, path).len() - 1)
    }
}

/// The text of `path` from its component number `k` to its last one.
pub open spec fn text_from_part(platform: Platform, path: Seq<char>, k: int) -> Seq<char> {
    let pieces = path_pieces(platform, path);
    if k >= path_parts(platform, path).len() {
        seq![]
    } else {
        path.subrange(
            body_start(platform, path) + piece_start(
                pieces,
                part_position(pieces, 0, k, path_dots(platform, path)),
            ),
            last_end(platform, path),
        )
    }
}

/// What follows `base` in `path`, where the components of `path` begin with those of `base`.
pub open spec fn relative_text(
    platform: Platform,
    path: Seq<char>,
    base: Seq<char>,
) -> Option<Seq<char>> {
    let start = path_components(platform, base);
    if !path_components(platform, path).begins_with(start) {
        None
    } else if start.is_bare() && start.prefix is None {
        Some(path.take(last_end(platform, path)))
    } else if start.is_bare() {
        Some(path.subrange(prefix_end(platform, path), last_end(platform, path)))
    } else {
        Some(text_from_part(platform, path, start.parts.len() as int))
    }
}

/// Where the components of a path stand in its text.
proof fn lemma_part_end(platform: Platform, path: Seq<char>, k: int)
    requires
        0 <= k < path_parts(platform, path).len(),
    ensures
        ({
            let pieces = path_pieces(platform, path);
            let at = part_position(pieces, 0, k, path_dots(platform, path));
            &&& 0 <= at < pieces.len()
            &&& piece_end(pieces, at) <= path.len() - body_start(platform, path)
            &&& body_start(platform, path) <= part_end(platform, path, k) <= path.len()
        }),
{
    let pieces = path_pieces(platform, path);
    let body = path.skip(body_start(platform, path));
    path_prefix::lemma_prefix_len(platform, path);
    lemma_part_position(pieces, 0, k, path_dots(platform, path));
    lemma_piece_end(
        path_prefix::folded(platform, is_literal(platform, path), body),
        platform::separator(platform),
        part_position(pieces, 0, k, path_dots(platform, path)),
    );
}

/// What stands before the components after the prefix and the root.
proof fn lemma_bare_end(platform: Platform, path: Seq<char>)
    ensures
        body_start(platform, path) <= bare_end(platform, path) <= path.len(),
        path_pieces(platform, path).len() > 0,
{
    reveal_strlit(".");
    path_prefix::lemma_prefix_len(platform, path);
    let body = path.skip(body_start(platform, path));
    let flat = path_prefix::folded(platform, is_literal(platform, path), body);
    text::lemma_join_split(flat, platform::separator(platform));
    lemma_piece_end(flat, platform::separator(platform), 0);
}

/// The end of component number `k` after the prefix and the root.
fn end_of_part(platform: Platform, chars: &Vec<char>, at: &Layout, k: usize) -> (r: usize)
    requires
        at.is_of(platform, chars@),
        k < path_parts(platform, chars@).len(),
    ensures
        r == part_end(platform, chars@, k as int),
        r <= chars@.len(),
{
    proof {
        lemma_part_end(platform, chars@, k as int);
    }
    let i: usize = find_part(&at.pieces, k, at.dots);
    at.start + end_of(&at.pieces, i, chars.len() - at.start)
}

/// The end of what stands before the components after the prefix and the root.
fn end_of_bare(platform: Platform, chars: &Vec<char>, at: &Layout) -> (r: usize)
    requires
        at.is_of(platform, chars@),
    ensures
        r == bare_end(platform, chars@),
        r <= chars@.len(),
{
    let size: usize = chars.len();
    proof {
        lemma_bare_end(platform, chars@);
        assert(bare_end(platform, chars@) <= size);
        assert(text::texts(at.pieces@)[0] == at.pieces@[0]@);
    }
    if at.dots == Dots::Never && !at.leading_separator && text::same(at.pieces[0].as_str(), ".") {
        at.start + 1
    } else {
        at.start
    }
}

/// What follows `base` in `path`, where the components of `path` begin with those of `base`.
pub fn relative(platform: Platform, path: &str, base: &str) -> (r: Option<String>)
    ensures
        text::text_option(r) == relative_text(platform, path@, base@),
{
    let chars = text::to_chars(path);
    let size: usize = chars.len();
    let whole = layout(platform, &chars);
    let start = layout(platform, &text::to_chars(base));
    let names = parts(&whole.pieces, whole.dots);
    let base_names = parts(&start.pieces, start.dots);
    let total: usize = names.len();
    let shared: usize = base_names.len();
    assert(total == path_parts(platform, path@).len());
    assert(shared == path_parts(platform, base@).len());
    let bare = !start.rooted && shared == 0;
    let begins = if bare {
        start.prefix.is_none() || same_prefixes(&start.prefix, &whole.prefix)
    } else {
        same_prefixes(&start.prefix, &whole.prefix) && start.rooted == whole.rooted
            && parts_start_with(&names, &base_names)
    };
    if !begins {
        return None;
    }
    proof {
        lemma_bare_end(platform, path@);
        path_prefix::lemma_prefix_len(platform, path@);
    }
    let end: usize = if total == 0 {
        end_of_bare(platform, &chars, &whole)
    } else {
        end_of_part(platform, &chars, &whole, total - 1)
    };
    if bare && start.prefix.is_none() {
        let r = text::from_chars(&chars, 0, end);
        assert(r@ =~= path@.take(last_end(platform, path@)));
        return Some(r);
    }
    if bare {
        proof {
            if total > 0 {
                lemma_part_end(platform, path@, total - 1);
            }
        }
        return Some(text::from_chars(&chars, whole.prefix_end, end));
    }
    if shared >= total {
        let nothing: String = String::new();
        assert(nothing@ =~= seq![]);
        return Some(nothing);
    }
    proof {
        let pieces = path_pieces(platform, path@);
        lemma_part_end(platform, path@, shared as int);
        lemma_part_end(platform, path@, total - 1);
        lemma_part_position(pieces, 0, total - 1, whole.dots);
        assert(part_position(pieces, 0, shared as int, whole.dots) <= part_position(
            pieces,
            0,
            total - 1,
            whole.dots,
        ));
        lemma_piece_order(
            pieces,
            part_position(pieces, 0, shared as int, whole.dots),
            part_position(pieces, 0, total - 1, whole.dots),
        );
    }
    let first: usize = find_part(&whole.pieces, shared, whole.dots);
    let from: usize = whole.start + start_of(&whole.pieces, first, size - whole.start);
    Some(text::from_chars(&chars, from, end))
}

/// A path without its last component, where it has one after the prefix and the root.
pub open spec fn parent_text(platform: Platform, path: Seq<char>) -> Option<Seq<char>> {
    let total = path_parts(platform, path).len();
    if total == 0 {
        None
    } else if total == 1 {
        Some(path.take(bare_end(platform, path)))
    } else {
        Some(path.take(part_end(platform, path, total - 2)))
    }
}

/// A path without its last component, where it has one after the prefix and the root.
pub fn parent(platform: Platform, path: &str) -> (r: Option<String>)
    ensures
        text::text_option(r) == parent_text(platform, path@),
{
    let chars = text::to_chars(path);
    let at = layout(platform, &chars);
    let total: usize = parts(&at.pieces, at.dots).len();
    assert(total == path_parts(platform, path@).len());
    if total == 0 {
        return None;
    }
    proof {
        lemma_bare_end(platform, path@);
    }
    let end: usize = if total == 1 {
        end_of_bare(platform, &chars, &at)
    } else {
        end_of_part(platform, &chars, &at, total - 2)
    };
    let r = text::from_chars(&chars, 0, end);
    assert(r@ =~= path@.take(end as int));
    Some(r)
}

/// The workspace of what is open: the folder that a single file is in, or the folder itself.
pub open spec fn workspace_text(
    platform: Platform,
    path: Seq<char>,
    single_file: bool,
) -> Option<Seq<char>> {
    if single_file {
        parent_text(platform, path)
    } else {
        Some(path)
    }
}

/// The workspace of what is open: the folder that a single file is in, or the folder itself.
pub fn workspace_of(platform: Platform, path: &str, single_file: bool) -> (r: Option<String>)
    ensures
        text::text_option(r) == workspace_text(platform, path@, single_file),
{
    if single_file {
        parent(platform, path)
    } else {
        Some(path.to_owned())
    }
}

/// Whether a text is a relative path each of whose pieces is a name.
pub open spec fn is_plain(platform: Platform, child: Seq<char>) -> bool {
    let pieces = pieces_of(platform, false, child);
    &&& path_prefix::prefix_of(platform, child) is None
    &&& forall|i: int|
        0 <= i < pieces.len() ==> (#[trigger] pieces[i]).len() > 0 && pieces[i] != "."@ && pieces[i]
            != ".."@
}

/// Whether a path is a drive and nothing else.
pub open spec fn is_drive(platform: Platform, path: Seq<char>) -> bool {
    path_prefix::prefix_of(platform, path) matches Some(PrefixModel::Disk(_)) && prefix_end(
        platform,
        path,
    ) == path.len()
}

/// `base` with a plain `child` below it. A path that is taken literally is written anew, with single
/// separators; to any other the child is added, behind a separator where one is missing.
pub open spec fn joined(platform: Platform, base: Seq<char>, child: Seq<char>) -> Seq<char> {
    let between = seq![platform::separator(platform)];
    if is_literal(platform, base) {
        base.take(prefix_end(platform, base)) + between + text::join_texts(
            path_parts(platform, base) + pieces_of(platform, false, child),
            between,
        )
    } else if base.len() == 0 || platform::separates(platform, base.last()) || is_drive(
        platform,
        base,
    ) {
        base + child
    } else {
        base + between + child
    }
}

/// `base` with a plain `child` below it.
pub fn join(platform: Platform, base: &str, child: &str) -> (r: String)
    requires
        is_plain(platform, child@),
    ensures
        r@ == joined(platform, base@, child@),
{
    proof {
        reveal_strlit("/");
        reveal_strlit("\\");
    }
    let between = match platform {
        Platform::Unix => "/",
        Platform::Windows => "\\",
    };
    assert(between@ =~= seq![platform::separator(platform)]);
    let chars = text::to_chars(base);
    let at = layout(platform, &chars);
    if at.dots == Dots::Always {
        let child_chars = text::to_chars(child);
        let flat = fold(platform, false, &child_chars, 0);
        assert(child@.skip(0) =~= child@);
        let mut names = parts(&at.pieces, at.dots);
        let mut more = text::split(flat.as_str(), platform::main_separator(platform));
        let ghost first = text::texts(names@);
        let ghost second = text::texts(more@);
        names.append(&mut more);
        assert(text::texts(names@) =~= first + second);
        let start = text::from_chars(&chars, 0, at.prefix_end);
        assert(start@ =~= base@.take(prefix_end(platform, base@)));
        return start.concat(between).concat(text::join(&names, between).as_str());
    }
    let drive = match &at.prefix {
        Some(Prefix::Disk(_)) => at.prefix_end == chars.len(),
        _ => false,
    };
    if chars.len() == 0 || platform::is_separator(platform, chars[chars.len() - 1]) || drive {
        base.to_owned().concat(child)
    } else {
        base.to_owned().concat(between).concat(child)
    }
}

/// Separators are folded in two texts as in the one that they make.
proof fn lemma_folded_concat(platform: Platform, literal: bool, a: Seq<char>, b: Seq<char>)
    ensures
        path_prefix::folded(platform, literal, a + b) == path_prefix::folded(platform, literal, a)
            + path_prefix::folded(platform, literal, b),
{
    assert(path_prefix::folded(platform, literal, a + b) =~= path_prefix::folded(
        platform,
        literal,
        a,
    ) + path_prefix::folded(platform, literal, b));
}

/// Texts with a separator between them have the pieces of both.
proof fn lemma_pieces_concat(platform: Platform, a: Seq<char>, c: char, b: Seq<char>)
    requires
        platform::separates(platform, c),
    ensures
        pieces_of(platform, false, a + seq![c] + b) == pieces_of(platform, false, a) + pieces_of(
            platform,
            false,
            b,
        ),
{
    lemma_folded_concat(platform, false, a + seq![c], b);
    lemma_folded_concat(platform, false, a, seq![c]);
    let one = path_prefix::folded(platform, false, seq![c]);
    assert(one =~= seq![platform::separator(platform)]);
    text::lemma_split_concat(
        path_prefix::folded(platform, false, a),
        path_prefix::folded(platform, false, b),
        platform::separator(platform),
    );
}

/// The pieces of nothing are one empty piece.
proof fn lemma_no_pieces(platform: Platform, literal: bool)
    ensures
        pieces_of(platform, literal, seq![]) == seq![Seq::<char>::empty()],
{
    let flat = path_prefix::folded(platform, literal, seq![]);
    assert(flat =~= seq![]);
    text::lemma_find_char_is(flat, platform::separator(platform), 0);
    assert(pieces_of(platform, literal, seq![]) =~= seq![Seq::<char>::empty()]);
}

/// Pieces that are all names, after others, are components all.
proof fn lemma_parts_after(front: Seq<Seq<char>>, names: Seq<Seq<char>>, i: int, dots: Dots)
    requires
        0 <= i <= front.len(),
        forall|j: int|
            0 <= j < names.len() ==> (#[trigger] names[j]).len() > 0 && (names[j] != "."@ || dots
                == Dots::Always),
    ensures
        parts_from(front + names, i, dots) == parts_from(front, i, dots) + names,
    decreases front.len() - i,
{
    let all = front + names;
    if i < front.len() {
        assert(all[i] == front[i]);
        lemma_parts_after(front, names, i + 1, dots);
        assert(parts_from(all, i, dots) =~= parts_from(front, i, dots) + names);
    } else {
        lemma_names(front, names, 0, dots);
        assert(names.skip(0) =~= names);
        assert(parts_from(front, i, dots) =~= seq![]);
        assert(seq![] + names =~= names);
    }
}

/// Pieces that are all names are components all.
proof fn lemma_names(front: Seq<Seq<char>>, names: Seq<Seq<char>>, j: int, dots: Dots)
    requires
        0 <= j <= names.len(),
        forall|i: int|
            0 <= i < names.len() ==> (#[trigger] names[i]).len() > 0 && (names[i] != "."@ || dots
                == Dots::Always),
    ensures
        parts_from(front + names, front.len() + j, dots) == names.skip(j),
    decreases names.len() - j,
{
    let all = front + names;
    if j < names.len() {
        assert(all[front.len() + j] == names[j]);
        lemma_names(front, names, j + 1, dots);
        assert(names.skip(j) =~= seq![names[j]] + names.skip(j + 1));
    } else {
        assert(names.skip(j) =~= seq![]);
    }
}

/// Where the components stand that follow those of `front`.
proof fn lemma_positions_after(
    front: Seq<Seq<char>>,
    names: Seq<Seq<char>>,
    i: int,
    k: int,
    dots: Dots,
)
    requires
        0 <= i <= front.len(),
        0 <= k < names.len(),
        forall|j: int|
            0 <= j < names.len() ==> (#[trigger] names[j]).len() > 0 && (names[j] != "."@ || dots
                == Dots::Always),
    ensures
        part_position(front + names, i, parts_from(front, i, dots).len() + k, dots) == front.len()
            + k,
    decreases front.len() - i,
{
    let all = front + names;
    if i < front.len() {
        assert(all[i] == front[i]);
        lemma_positions_after(front, names, i + 1, k, dots);
    } else {
        lemma_name_positions(front, names, 0, k, dots);
    }
}

/// Where the components stand among names.
proof fn lemma_name_positions(
    front: Seq<Seq<char>>,
    names: Seq<Seq<char>>,
    j: int,
    k: int,
    dots: Dots,
)
    requires
        0 <= j <= k < names.len(),
        forall|i: int|
            0 <= i < names.len() ==> (#[trigger] names[i]).len() > 0 && (names[i] != "."@ || dots
                == Dots::Always),
    ensures
        part_position(front + names, front.len() + j, k - j, dots) == front.len() + k,
    decreases k - j,
{
    let all = front + names;
    assert(all[front.len() + j] == names[j]);
    if j < k {
        lemma_name_positions(front, names, j + 1, k, dots);
    }
}

/// Pieces begin where they would without what follows them.
proof fn lemma_piece_start_in_front(front: Seq<Seq<char>>, rest: Seq<Seq<char>>, i: int)
    requires
        0 <= i <= front.len(),
    ensures
        piece_start(front + rest, i) == piece_start(front, i),
    decreases i,
{
    if i > 0 {
        lemma_piece_start_in_front(front, rest, i - 1);
        assert((front + rest)[i - 1] == front[i - 1]);
    }
}

/// A path whose pieces are those of `front` and then names: these are its last components, and
/// their text, which begins at `at`, goes to its end.
proof fn lemma_tail(
    platform: Platform,
    path: Seq<char>,
    front: Seq<Seq<char>>,
    names: Seq<Seq<char>>,
    at: int,
)
    requires
        path_pieces(platform, path) == front + names,
        names.len() > 0,
        forall|j: int|
            0 <= j < names.len() ==> (#[trigger] names[j]).len() > 0 && (names[j] != "."@
                || path_dots(platform, path) == Dots::Always),
        at == body_start(platform, path) + piece_start(front + names, front.len() as int),
    ensures
        path_parts(platform, path) == parts_from(front, 0, path_dots(platform, path)) + names,
        text_from_part(
            platform,
            path,
            parts_from(front, 0, path_dots(platform, path)).len() as int,
        ) == path.skip(at),
        last_end(platform, path) == path.len(),
{
    let dots = path_dots(platform, path);
    let body = path.skip(body_start(platform, path));
    path_prefix::lemma_prefix_len(platform, path);
    lemma_parts_after(front, names, 0, dots);
    lemma_positions_after(front, names, 0, 0, dots);
    lemma_positions_after(front, names, 0, names.len() - 1, dots);
    lemma_piece_end(
        path_prefix::folded(platform, is_literal(platform, path), body),
        platform::separator(platform),
        front.len() + names.len() - 1,
    );
    assert(part_position(front + names, 0, path_parts(platform, path).len() - 1, dots) == front.len()
        + names.len() - 1);
    assert(last_end(platform, path) == path.len());
    assert(path.subrange(at, path.len() as int) =~= path.skip(at));
}

/// An empty piece at the end is no component.
proof fn lemma_blank_end(front: Seq<Seq<char>>, blank: Seq<char>, i: int, dots: Dots)
    requires
        0 <= i <= front.len(),
        blank.len() == 0,
    ensures
        parts_from(front + seq![blank], i, dots) == parts_from(front, i, dots),
    decreases front.len() - i,
{
    let all = front + seq![blank];
    if i < front.len() {
        assert(all[i] == front[i]);
        lemma_blank_end(front, blank, i + 1, dots);
    } else {
        reveal_with_fuel(parts_from, 2);
        assert(all[i] == blank);
        assert(parts_from(all, i, dots) =~= seq![]);
        assert(parts_from(front, i, dots) =~= seq![]);
    }
}

/// A text that is not empty and does not begin with a separator has a first piece that is not empty.
proof fn lemma_first_piece(platform: Platform, literal: bool, s: Seq<char>)
    ensures
        pieces_of(platform, literal, s).len() > 0,
        s.len() > 0 && !platform::separates(platform, s[0]) ==> pieces_of(
            platform,
            literal,
            s,
        )[0].len() > 0,
        s.len() > 0 && pieces_of(platform, literal, s)[0].len() > 0 && !literal
            ==> !platform::separates(platform, s[0]),
        s.len() == 0 ==> pieces_of(platform, literal, s)[0].len() == 0,
{
    let flat = path_prefix::folded(platform, literal, s);
    text::lemma_join_split(flat, platform::separator(platform));
    text::lemma_find_char(flat, platform::separator(platform));
    lemma_no_pieces(platform, literal);
    if s.len() == 0 {
        assert(s =~= seq![]);
    }
}

/// Whether a plain `child` below `base` is read as below it: the path has the prefix of `base`, and
/// where `base` has no component but a prefix, nothing stands behind that.
pub open spec fn extends(platform: Platform, base: Seq<char>, child: Seq<char>) -> bool {
    let start = path_components(platform, base);
    &&& path_prefix::prefix_of(platform, joined(platform, base, child)) == start.prefix
    &&& start.is_bare() ==> prefix_end(platform, base) == base.len() && !is_literal(platform, base)
}

/// On Unix every plain path is read as below its base.
proof fn lemma_unix_extends(base: Seq<char>, child: Seq<char>)
    ensures
        extends(Platform::Unix, base, child),
{
    if base.len() > 0 && !has_leading_separator(Platform::Unix, base) {
        let pieces = path_pieces(Platform::Unix, base);
        assert(base.skip(0) =~= base);
        lemma_first_piece(Platform::Unix, false, base);
        assert(is_part(pieces, 0, Dots::AtTheBeginning));
    }
}

/// A plain path below a base is what follows the base, with the separators of a path that is taken
/// literally where the base is. On Windows this is of paths that are read as below the base.
pub proof fn law_joined_child_is_relative(platform: Platform, base: Seq<char>, child: Seq<char>)
    requires
        is_plain(platform, child),
        platform == Platform::Unix || extends(platform, base, child),
    ensures
        relative_text(platform, joined(platform, base, child), base) == Some(
            if is_literal(platform, base) {
                text::join_texts(
                    pieces_of(platform, false, child),
                    seq![platform::separator(platform)],
                )
            } else {
                child
            },
        ),
{
    if platform == Platform::Unix {
        lemma_unix_extends(base, child);
    }
    path_prefix::lemma_prefix_len(platform, base);
    if is_literal(platform, base) {
        lemma_joined_literally(platform, base, child);
    } else if base.len() == prefix_end(platform, base) {
        lemma_joined_to_prefix(platform, base, child);
    } else {
        lemma_joined_to_more(platform, base, child);
    }
}

/// A plain path below a base that is a prefix, or nothing.
proof fn lemma_joined_to_prefix(platform: Platform, base: Seq<char>, child: Seq<char>)
    requires
        is_plain(platform, child),
        extends(platform, base, child),
        !is_literal(platform, base),
        base.len() == prefix_end(platform, base),
    ensures
        relative_text(platform, joined(platform, base, child), base) == Some(child),
{
    let names = pieces_of(platform, false, child);
    let none: Seq<Seq<char>> = seq![];
    let path = joined(platform, base, child);
    let start = body_start(platform, path);
    lemma_first_piece(platform, false, child);
    lemma_no_pieces(platform, false);
    reveal_with_fuel(parts_from, 2);
    assert(base.skip(base.len() as int) =~= seq![]);
    assert(path_parts(platform, base) =~= seq![]);
    assert(path.skip(start) =~= child);
    assert(none + names =~= names);
    assert(parts_from(none, 0, path_dots(platform, path)) =~= none);
    lemma_tail(platform, path, none, names, start);
    assert(none + names =~= names);
    assert(path.take(path.len() as int) =~= path);
    assert(path.subrange(prefix_end(platform, path), path.len() as int) =~= path.skip(
        prefix_end(platform, path),
    ));
    assert(path_parts(platform, base).is_prefix_of(path_parts(platform, path)));
}

/// A plain path below a base that has more than a prefix.
#[verifier::rlimit(50)]
proof fn lemma_joined_to_more(platform: Platform, base: Seq<char>, child: Seq<char>)
    requires
        is_plain(platform, child),
        extends(platform, base, child),
        !is_literal(platform, base),
        base.len() > prefix_end(platform, base),
    ensures
        relative_text(platform, joined(platform, base, child), base) == Some(child),
{
    let names = pieces_of(platform, false, child);
    let path = joined(platform, base, child);
    let start = body_start(platform, base);
    let body = base.skip(start);
    let dots = path_dots(platform, base);
    let between = platform::separator(platform);
    lemma_first_piece(platform, false, child);
    assert(path[prefix_end(platform, base)] == base[prefix_end(platform, base)]);
    assert(body_start(platform, path) == start);
    assert(path_dots(platform, path) == dots);
    let front = if body.len() == 0 {
        seq![]
    } else if platform::separates(platform, base.last()) {
        pieces_of(platform, false, body.drop_last())
    } else {
        pieces_of(platform, false, body)
    };
    if body.len() == 0 {
        lemma_no_pieces(platform, false);
        reveal_with_fuel(parts_from, 2);
        assert(body =~= seq![]);
        assert(path_parts(platform, base) =~= seq![]);
        assert(parts_from(front, 0, dots) =~= seq![]);
        assert(platform::separates(platform, base.last()));
        assert(path.skip(start) =~= child);
        assert(front + names =~= names);
        lemma_tail(platform, path, front, names, start);
    } else {
        let stem = if platform::separates(platform, base.last()) {
            body.drop_last()
        } else {
            body
        };
        let flat = path_prefix::folded(platform, false, stem);
        let size = front.len() as int;
        if platform::separates(platform, base.last()) {
            let none: Seq<char> = seq![];
            assert(body =~= stem + seq![base.last()] + none);
            assert(path.skip(start) =~= stem + seq![base.last()] + child);
            lemma_pieces_concat(platform, stem, base.last(), none);
            lemma_pieces_concat(platform, stem, base.last(), child);
            lemma_no_pieces(platform, false);
            lemma_blank_end(front, none, 0, dots);
        } else {
            assert(path.skip(start) =~= stem + seq![between] + child);
            lemma_pieces_concat(platform, stem, between, child);
        }
        assert(path_parts(platform, base) == parts_from(front, 0, dots));
        text::lemma_join_split(flat, between);
        lemma_piece_end(flat, between, size - 1);
        lemma_piece_start_in_front(front, names, size);
        assert(piece_start(front, size) == piece_end(front, size - 1) + 1);
        let at = start + stem.len() + 1;
        lemma_tail(platform, path, front, names, at);
        assert(path.skip(at) =~= child);
    }
    assert(path_parts(platform, path).subrange(0, path_parts(platform, base).len() as int)
        =~= path_parts(platform, base));
}

/// The components among pieces are pieces that are not empty.
proof fn lemma_parts_are_pieces(pieces: Seq<Seq<char>>, i: int, dots: Dots, c: char)
    requires
        0 <= i <= pieces.len(),
        forall|j: int| 0 <= j < pieces.len() ==> !(#[trigger] pieces[j]).contains(c),
    ensures
        forall|j: int|
            0 <= j < parts_from(pieces, i, dots).len() ==> (#[trigger] parts_from(
                pieces,
                i,
                dots,
            )[j]).len() > 0 && !parts_from(pieces, i, dots)[j].contains(c),
    decreases pieces.len() - i,
{
    let parts = parts_from(pieces, i, dots);
    if i < pieces.len() {
        let rest = parts_from(pieces, i + 1, dots);
        lemma_parts_are_pieces(pieces, i + 1, dots, c);
        if is_part(pieces, i, dots) {
            assert forall|j: int| 0 <= j < parts.len() implies (#[trigger] parts[j]).len() > 0
                && !parts[j].contains(c) by {
                if j > 0 {
                    assert(parts[j] == rest[j - 1]);
                }
            }
        }
    }
}

/// A plain path below a base that is taken literally.
#[verifier::rlimit(50)]
proof fn lemma_joined_literally(platform: Platform, base: Seq<char>, child: Seq<char>)
    requires
        is_plain(platform, child),
        extends(platform, base, child),
        is_literal(platform, base),
    ensures
        relative_text(platform, joined(platform, base, child), base) == Some(
            text::join_texts(
                pieces_of(platform, false, child),
                seq![platform::separator(platform)],
            ),
        ),
{
    let between = platform::separator(platform);
    let names = pieces_of(platform, false, child);
    let front = path_parts(platform, base);
    let end = prefix_end(platform, base);
    let path = joined(platform, base, child);
    let body = text::join_texts(front + names, seq![between]);
    let all = front + names;
    path_prefix::lemma_prefix_len(platform, base);
    lemma_first_piece(platform, false, child);
    text::lemma_pieces_are_whole(path_prefix::folded(platform, false, child), between);
    text::lemma_pieces_are_whole(
        path_prefix::folded(platform, true, base.skip(body_start(platform, base))),
        between,
    );
    lemma_parts_are_pieces(path_pieces(platform, base), 0, Dots::Always, between);
    assert forall|i: int| 0 <= i < all.len() implies (#[trigger] all[i]).len() > 0
        && !all[i].contains(between) by {
        if i < front.len() {
            assert(all[i] == front[i]);
        } else {
            assert(all[i] == names[i - front.len()]);
        }
    }
    text::lemma_split_join(all, between);
    assert(path[end] == between);
    assert(body_start(platform, path) == end + 1);
    assert(path.skip(end + 1) =~= body);
    if end < base.len() {
        path_prefix::lemma_separator_follows(platform, base);
    } else {
        lemma_no_pieces(platform, true);
        reveal_with_fuel(parts_from, 2);
        assert(base.skip(end) =~= seq![]);
        assert(front =~= seq![]);
    }
    let none: Seq<Seq<char>> = seq![];
    assert(none + all =~= all);
    assert(parts_from(none, 0, Dots::Always) =~= none);
    lemma_tail(platform, path, none, all, end + 1);
    assert(none + all =~= all);
    lemma_parts_after(none, front, 0, Dots::Always);
    assert(none + front =~= front);
    let rest = text::join_texts(names, seq![between]);
    if front.len() == 0 {
        assert(all =~= names);
        lemma_tail(platform, path, front, names, end + 1);
        assert(path.skip(end + 1) =~= rest);
    } else {
        text::lemma_join_concat(front, names, seq![between]);
        text::lemma_split_join(front, between);
        let stem = text::join_texts(front, seq![between]);
        lemma_piece_end(stem, between, front.len() - 1);
        lemma_piece_start_in_front(front, names, front.len() as int);
        assert(piece_start(front, front.len() as int) == piece_end(front, front.len() - 1) + 1);
        let at = end + 1 + stem.len() + 1;
        lemma_tail(platform, path, front, names, at);
        assert(path.skip(at) =~= rest);
    }
    assert(path_parts(platform, path).subrange(0, front.len() as int) =~= front);
}

/// A text that is cut at the end of a piece has the pieces up to it.
proof fn lemma_cut_pieces(s: Seq<char>, separator: char, i: int)
    requires
        0 <= i < text::split_text(s, separator).len(),
    ensures
        text::split_text(s.take(piece_end(text::split_text(s, separator), i) as int), separator)
            == text::split_text(s, separator).take(i + 1),
    decreases s.len(),
{
    let pieces = text::split_text(s, separator);
    let at = text::find_char(s, separator);
    let end = piece_end(pieces, i) as int;
    let part = s.take(end);
    text::lemma_find_char(s, separator);
    lemma_piece_end(s, separator, i);
    if i == 0 {
        assert(end == at);
        text::lemma_find_char_is(part, separator, at);
        assert(part =~= pieces[0]);
        assert(text::split_text(part, separator) =~= pieces.take(1));
    } else {
        let rest = s.skip(at + 1);
        let others = text::split_text(rest, separator);
        lemma_piece_start_behind(s.take(at), others, i - 1);
        assert(pieces[i] == others[i - 1]);
        assert(end == at + 1 + piece_end(others, i - 1));
        lemma_piece_end(rest, separator, i - 1);
        lemma_cut_pieces(rest, separator, i - 1);
        text::lemma_find_char_is(part, separator, at);
        assert(part.take(at) =~= s.take(at));
        assert(part.skip(at + 1) =~= rest.take(piece_end(others, i - 1) as int));
        assert(text::split_text(part, separator) =~= pieces.take(i + 1));
    }
}

/// The components up to number `k` are those of the pieces up to its position.
proof fn lemma_parts_up_to(pieces: Seq<Seq<char>>, i: int, k: int, dots: Dots)
    requires
        0 <= i <= pieces.len(),
        0 <= k < parts_from(pieces, i, dots).len(),
    ensures
        parts_from(pieces.take(part_position(pieces, i, k, dots) + 1), i, dots) == parts_from(
            pieces,
            i,
            dots,
        ).take(k + 1),
    decreases pieces.len() - i,
{
    lemma_part_position(pieces, i, k, dots);
    let at = part_position(pieces, i, k, dots);
    let front = pieces.take(at + 1);
    if i < pieces.len() {
        assert(front[i] == pieces[i]);
        if is_part(pieces, i, dots) && k == 0 {
            assert(parts_from(front, i + 1, dots) =~= seq![]);
            assert(parts_from(front, i, dots) =~= parts_from(pieces, i, dots).take(1));
        } else if is_part(pieces, i, dots) {
            lemma_parts_up_to(pieces, i + 1, k - 1, dots);
            assert(parts_from(front, i, dots) =~= parts_from(pieces, i, dots).take(k + 1));
        } else {
            lemma_parts_up_to(pieces, i + 1, k, dots);
        }
    }
}

/// A path with components that is cut behind its prefix and root keeps both.
proof fn lemma_cut_path(platform: Platform, path: Seq<char>, n: int)
    requires
        path_parts(platform, path).len() > 0,
        body_start(platform, path) <= n <= path.len(),
    ensures
        ({
            let part = path.take(n);
            &&& path_prefix::prefix_of(platform, part) == path_prefix::prefix_of(platform, path)
            &&& body_start(platform, part) == body_start(platform, path)
            &&& is_rooted(platform, part) == is_rooted(platform, path)
            &&& path_dots(platform, part) == path_dots(platform, path)
            &&& path_pieces(platform, part) == pieces_of(
                platform,
                is_literal(platform, path),
                path.subrange(body_start(platform, path), n),
            )
        }),
{
    let part = path.take(n);
    let end = prefix_end(platform, path);
    path_prefix::lemma_prefix_len(platform, path);
    if end == path.len() {
        lemma_no_pieces(platform, is_literal(platform, path));
        reveal_with_fuel(parts_from, 2);
        assert(path.skip(end) =~= seq![]);
    }
    if path_prefix::prefix_of(platform, path) is Some && !(path_prefix::prefix_of(
        platform,
        path,
    )->Some_0 is Disk) {
        path_prefix::lemma_separator_follows(platform, path);
    }
    path_prefix::lemma_prefix_kept(platform, path, n);
    assert(part.skip(body_start(platform, path)) =~= path.subrange(
        body_start(platform, path),
        n,
    ));
}

/// The parent of a path has its components but for the last one. Only a path without components
/// after its prefix and its root has none.
#[verifier::rlimit(50)]
pub proof fn law_parent_drops_the_last_component(platform: Platform, path: Seq<char>)
    ensures
        match parent_text(platform, path) {
            Some(parent) => path_parts(platform, path).len() > 0 && path_components(
                platform,
                parent,
            ) == (PathModel {
                parts: path_parts(platform, path).drop_last(),
                ..path_components(platform, path)
            }),
            None => path_parts(platform, path).len() == 0,
        },
{
    let total = path_parts(platform, path).len();
    let literal = is_literal(platform, path);
    let start = body_start(platform, path);
    let pieces = path_pieces(platform, path);
    let dots = path_dots(platform, path);
    let body = path.skip(start);
    let flat = path_prefix::folded(platform, literal, body);
    let separator = platform::separator(platform);
    path_prefix::lemma_prefix_len(platform, path);
    if total == 1 {
        let n = bare_end(platform, path);
        let parent = path.take(n);
        lemma_bare_end(platform, path);
        lemma_cut_path(platform, path, n);
        reveal_with_fuel(parts_from, 2);
        if n == start {
            lemma_no_pieces(platform, literal);
            assert(path.subrange(start, n) =~= seq![]);
        } else {
            reveal_strlit(".");
            lemma_cut_pieces(flat, separator, 0);
            assert(path_prefix::folded(platform, literal, path.subrange(start, n))
                =~= flat.take(1));
            assert(path_pieces(platform, parent) =~= pieces.take(1));
        }
        assert(path_parts(platform, parent) =~= seq![]);
        assert(path_parts(platform, path).drop_last() =~= seq![]);
        assert(path_components(platform, parent) =~= (PathModel {
            parts: path_parts(platform, path).drop_last(),
            ..path_components(platform, path)
        }));
    } else if total > 1 {
        let at = part_position(pieces, 0, total - 2, dots);
        let n = part_end(platform, path, total - 2);
        let parent = path.take(n);
        lemma_part_end(platform, path, total - 2);
        lemma_cut_path(platform, path, n);
        lemma_cut_pieces(flat, separator, at);
        assert(path_prefix::folded(platform, literal, path.subrange(start, n)) =~= flat.take(
            n - start,
        ));
        lemma_parts_up_to(pieces, 0, total - 2, dots);
        assert(path_parts(platform, parent) =~= path_parts(platform, path).drop_last());
        assert(path_components(platform, parent) =~= (PathModel {
            parts: path_parts(platform, path).drop_last(),
            ..path_components(platform, path)
        }));
    }
}

/// One more piece behind a separator is one more component, unless it is empty or a single dot, which
/// count for nothing. So the components of a path are its names in order, whatever separators stand
/// between them. (A path that is taken literally, and a first name that makes the beginning a prefix,
/// are read otherwise.)
pub proof fn law_one_more_piece(platform: Platform, path: Seq<char>, c: char, piece: Seq<char>)
    requires
        platform::separates(platform, c),
        forall|i: int| 0 <= i < piece.len() ==> !platform::separates(platform, #[trigger] piece[i]),
        !is_literal(platform, path),
        path.len() > prefix_end(platform, path),
        path_prefix::prefix_of(platform, path + seq![c] + piece) == path_prefix::prefix_of(
            platform,
            path,
        ),
    ensures
        path_components(platform, path + seq![c] + piece) == (PathModel {
            parts: if piece.len() == 0 || piece == "."@ {
                path_parts(platform, path)
            } else {
                path_parts(platform, path).push(piece)
            },
            ..path_components(platform, path)
        }),
{
    let longer = path + seq![c] + piece;
    let start = body_start(platform, path);
    let body = path.skip(start);
    let dots = path_dots(platform, path);
    path_prefix::lemma_prefix_len(platform, path);
    assert(longer[prefix_end(platform, path)] == path[prefix_end(platform, path)]);
    assert(body_start(platform, longer) == start);
    assert(path_dots(platform, longer) == dots);
    assert(longer.skip(start) =~= body + seq![c] + piece);
    lemma_pieces_concat(platform, body, c, piece);
    lemma_single_piece(platform, piece);
    lemma_first_piece(platform, false, body);
    let front = pieces_of(platform, false, body);
    lemma_last_piece(front, piece, 0, dots);
    assert(path_components(platform, longer) =~= (PathModel {
        parts: if piece.len() == 0 || piece == "."@ {
            path_parts(platform, path)
        } else {
            path_parts(platform, path).push(piece)
        },
        ..path_components(platform, path)
    }));
}

/// A text without separators is one piece.
proof fn lemma_single_piece(platform: Platform, piece: Seq<char>)
    requires
        forall|i: int| 0 <= i < piece.len() ==> !platform::separates(platform, #[trigger] piece[i]),
    ensures
        pieces_of(platform, false, piece) == seq![piece],
{
    let flat = path_prefix::folded(platform, false, piece);
    assert(flat =~= piece);
    text::lemma_find_char_is(flat, platform::separator(platform), flat.len() as int);
    assert(pieces_of(platform, false, piece) =~= seq![piece]);
}

/// A last piece is the last component where it is one.
proof fn lemma_last_piece(front: Seq<Seq<char>>, piece: Seq<char>, i: int, dots: Dots)
    requires
        0 <= i <= front.len(),
        front.len() > 0,
        dots != Dots::Always,
    ensures
        parts_from(front + seq![piece], i, dots) == if piece.len() == 0 || piece == "."@ {
            parts_from(front, i, dots)
        } else {
            parts_from(front, i, dots).push(piece)
        },
    decreases front.len() - i,
{
    let all = front + seq![piece];
    if i < front.len() {
        assert(all[i] == front[i]);
        lemma_last_piece(front, piece, i + 1, dots);
        assert(parts_from(all, i, dots) =~= if piece.len() == 0 || piece == "."@ {
            parts_from(front, i, dots)
        } else {
            parts_from(front, i, dots).push(piece)
        });
    } else {
        reveal_with_fuel(parts_from, 2);
        assert(all[i] == piece);
        assert(parts_from(front, i, dots) =~= seq![]);
        assert(parts_from(all, i, dots) =~= if piece.len() == 0 || piece == "."@ {
            seq![]
        } else {
            seq![piece]
        });
    }
}

/// The shortest paths: nothing has no components, a separator alone is the root, a name alone is one
/// component, and a name behind a separator is one component below the root.
pub proof fn law_short_paths(platform: Platform, c: char, piece: Seq<char>)
    requires
        platform::separates(platform, c),
        piece.len() > 0,
        forall|i: int| 0 <= i < piece.len() ==> !platform::separates(platform, #[trigger] piece[i]),
        path_prefix::prefix_of(platform, piece) is None,
    ensures
        path_components(platform, seq![]) == (PathModel {
            prefix: None,
            rooted: false,
            parts: seq![],
        }),
        path_components(platform, seq![c]) == (PathModel {
            prefix: None,
            rooted: true,
            parts: seq![],
        }),
        path_components(platform, piece) == (PathModel {
            prefix: None,
            rooted: false,
            parts: seq![piece],
        }),
        path_components(platform, seq![c] + piece) == (PathModel {
            prefix: None,
            rooted: true,
            parts: if piece == "."@ {
                seq![]
            } else {
                seq![piece]
            },
        }),
{
    let none: Seq<char> = seq![];
    reveal_with_fuel(parts_from, 2);
    lemma_no_pieces(platform, false);
    lemma_single_piece(platform, piece);
    assert(none.skip(0) =~= none);
    assert(seq![c].skip(1) =~= none);
    assert(piece.skip(0) =~= piece);
    let rooted = seq![c] + piece;
    assert(rooted.skip(1) =~= piece);
    assert(rooted[0] == c && rooted[1] == piece[0]);
    assert(path_prefix::prefix_of(platform, rooted) is None);
    assert(path_parts(platform, none) =~= seq![]);
    assert(path_parts(platform, seq![c]) =~= seq![]);
    assert(path_parts(platform, piece) =~= seq![piece]);
    assert(path_parts(platform, rooted) =~= if piece == "."@ {
        seq![]
    } else {
        seq![piece]
    });
    assert(path_components(platform, none) =~= (PathModel {
        prefix: None,
        rooted: false,
        parts: seq![],
    }));
    assert(path_components(platform, seq![c]) =~= (PathModel {
        prefix: None,
        rooted: true,
        parts: seq![],
    }));
}

/// The name of a path is its last component, unless that is a dot or two; the project of a workspace
/// has that name, or is called `workspace`.
pub proof fn law_name_is_the_last_component(platform: Platform, path: Seq<char>)
    ensures
        ({
            let parts = path_parts(platform, path);
            &&& file_name_text(platform, path) matches Some(name) ==> parts.len() > 0
                && parts.last() == name && name != "."@ && name != ".."@
            &&& file_name_text(platform, path) is None ==> parts.len() == 0 || parts.last() == "."@
                || parts.last() == ".."@
            &&& file_name_text(platform, path) matches Some(name) ==> project_name_text(
                platform,
                path,
            ) == name
            &&& file_name_text(platform, path) is None ==> project_name_text(platform, path)
                == "workspace"@
        }),
{
}

/// The workspace of a single file is the folder that it is in; a folder is its own workspace.
pub proof fn law_workspace_of_what_is_open(
    platform: Platform,
    folder: Seq<char>,
    c: char,
    name: Seq<char>,
)
    requires
        platform::separates(platform, c),
        name.len() > 0,
        name != "."@,
        forall|i: int| 0 <= i < name.len() ==> !platform::separates(platform, #[trigger] name[i]),
        !is_literal(platform, folder),
        folder.len() > prefix_end(platform, folder),
        path_prefix::prefix_of(platform, folder + seq![c] + name) == path_prefix::prefix_of(
            platform,
            folder,
        ),
    ensures
        workspace_text(platform, folder, false) == Some(folder),
        workspace_text(platform, folder + seq![c] + name, true) matches Some(workspace)
            && same_path_text(platform, workspace, folder),
{
    let file = folder + seq![c] + name;
    law_one_more_piece(platform, folder, c, name);
    law_parent_drops_the_last_component(platform, file);
    assert(path_parts(platform, folder).push(name).drop_last() =~= path_parts(platform, folder));
    assert(path_components(platform, parent_text(platform, file)->Some_0) =~= path_components(
        platform,
        folder,
    ));
}

/// A text that is cut before a piece has the pieces from there on.
proof fn lemma_skip_pieces(s: Seq<char>, separator: char, i: int)
    requires
        0 <= i < text::split_text(s, separator).len(),
    ensures
        piece_start(text::split_text(s, separator), i) <= s.len(),
        text::split_text(s.skip(piece_start(text::split_text(s, separator), i) as int), separator)
            == text::split_text(s, separator).skip(i),
    decreases i,
{
    let pieces = text::split_text(s, separator);
    let at = text::find_char(s, separator);
    text::lemma_find_char(s, separator);
    lemma_piece_end(s, separator, i);
    if i == 0 {
        assert(s.skip(0) =~= s);
        assert(pieces.skip(0) =~= pieces);
    } else {
        let rest = s.skip(at + 1);
        let others = text::split_text(rest, separator);
        lemma_piece_start_behind(s.take(at), others, i - 1);
        lemma_skip_pieces(rest, separator, i - 1);
        assert(s.skip(piece_start(pieces, i) as int) =~= rest.skip(
            piece_start(others, i - 1) as int,
        ));
        assert(pieces.skip(i) =~= others.skip(i - 1));
    }
}

/// Where a later piece begins in a text that is cut before an earlier one.
proof fn lemma_piece_start_skipped(pieces: Seq<Seq<char>>, i: int, j: int)
    requires
        0 <= i <= j < pieces.len(),
    ensures
        piece_start(pieces.skip(i), j - i) == piece_start(pieces, j) - piece_start(pieces, i),
    decreases j - i,
{
    if i < j {
        lemma_piece_start_skipped(pieces, i, j - 1);
        assert(pieces.skip(i)[j - i - 1] == pieces[j - 1]);
    }
}

/// The components from number `k` on are those of the pieces from its position on, where the first of
/// these counts as it does there.
proof fn lemma_parts_skipped(pieces: Seq<Seq<char>>, i: int, k: int, dots: Dots, end: int)
    requires
        0 <= i <= pieces.len(),
        0 <= k < parts_from(pieces, i, dots).len(),
        dots != Dots::Always,
        part_position(pieces, i, k, dots) <= end < pieces.len(),
        parts_from(pieces, end + 1, dots).len() == 0,
    ensures
        ({
            let at = part_position(pieces, i, k, dots);
            parts_from(pieces.subrange(at, end + 1), 0, Dots::AtTheBeginning) == parts_from(
                pieces,
                i,
                dots,
            ).skip(k)
        }),
    decreases pieces.len() - i,
{
    let at = part_position(pieces, i, k, dots);
    lemma_part_position(pieces, i, k, dots);
    if is_part(pieces, i, dots) && k == 0 {
        let part = pieces.subrange(i, end + 1);
        lemma_parts_cut(pieces, i + 1, i, end, dots);
        assert(part[0] == pieces[i]);
        assert(parts_from(part, 0, Dots::AtTheBeginning) =~= parts_from(pieces, i, dots).skip(0));
    } else if is_part(pieces, i, dots) {
        lemma_parts_skipped(pieces, i + 1, k - 1, dots, end);
        assert(parts_from(pieces, i, dots).skip(k) =~= parts_from(pieces, i + 1, dots).skip(k - 1));
    } else {
        lemma_parts_skipped(pieces, i + 1, k, dots, end);
    }
}

/// Components behind the first piece are the same in a part of the pieces that loses none.
proof fn lemma_parts_cut(pieces: Seq<Seq<char>>, i: int, from: int, end: int, dots: Dots)
    requires
        0 <= from < i <= end + 1 <= pieces.len(),
        dots != Dots::Always,
        parts_from(pieces, end + 1, dots).len() == 0,
    ensures
        parts_from(pieces.subrange(from, end + 1), i - from, Dots::AtTheBeginning) == parts_from(
            pieces,
            i,
            dots,
        ),
    decreases end + 1 - i,
{
    let part = pieces.subrange(from, end + 1);
    if i <= end {
        assert(part[i - from] == pieces[i]);
        lemma_parts_cut(pieces, i + 1, from, end, dots);
    } else {
        assert(parts_from(part, i - from, Dots::AtTheBeginning) =~= seq![]);
        assert(parts_from(pieces, i, dots) =~= seq![]);
    }
}

/// Behind the last component there is none.
proof fn lemma_last_part(pieces: Seq<Seq<char>>, i: int, dots: Dots)
    requires
        0 <= i <= pieces.len(),
        parts_from(pieces, i, dots).len() > 0,
    ensures
        ({
            let at = part_position(pieces, i, parts_from(pieces, i, dots).len() - 1, dots);
            i <= at < pieces.len() && parts_from(pieces, at + 1, dots).len() == 0
        }),
    decreases pieces.len() - i,
{
    let total = parts_from(pieces, i, dots).len();
    lemma_part_position(pieces, i, total - 1, dots);
    if is_part(pieces, i, dots) {
        if total > 1 {
            lemma_last_part(pieces, i + 1, dots);
        }
    } else {
        lemma_last_part(pieces, i + 1, dots);
    }
}

/// What follows a base in a Unix path is there exactly where the path begins with the components of
/// the base, and has the components that are left.
#[verifier::rlimit(50)]
pub proof fn law_relative_path_has_the_rest(path: Seq<char>, base: Seq<char>)
    requires
        base.len() > 0,
    ensures
        ({
            let whole = path_components(Platform::Unix, path);
            let start = path_components(Platform::Unix, base);
            &&& relative_text(Platform::Unix, path, base) is Some <==> whole.rooted == start.rooted
                && start.parts.len() <= whole.parts.len() && (forall|i: int|
                0 <= i < start.parts.len() ==> #[trigger] start.parts[i] == whole.parts[i])
            &&& relative_text(Platform::Unix, path, base) matches Some(rest) ==> path_components(
                Platform::Unix,
                rest,
            ) == (PathModel {
                prefix: None,
                rooted: false,
                parts: whole.parts.skip(start.parts.len() as int),
            })
        }),
{
    let unix = Platform::Unix;
    let whole = path_components(unix, path);
    let start = path_components(unix, base);
    let pieces = path_pieces(unix, path);
    let dots = path_dots(unix, path);
    let k = start.parts.len() as int;
    let total = whole.parts.len() as int;
    lemma_unix_extends(base, seq!['a']);
    assert(!start.is_bare());
    if start.parts.is_prefix_of(whole.parts) {
        assert forall|i: int| 0 <= i < k implies #[trigger] start.parts[i] == whole.parts[i] by {
            assert(whole.parts.take(k)[i] == whole.parts[i]);
        }
    }
    if k <= total && (forall|i: int| 0 <= i < k ==> #[trigger] start.parts[i] == whole.parts[i]) {
        assert(whole.parts.take(k) =~= start.parts);
    }
    if relative_text(unix, path, base) is Some {
        let rest = relative_text(unix, path, base)->Some_0;
        if k >= total {
            lemma_no_pieces(unix, false);
            reveal_with_fuel(parts_from, 2);
            assert(rest.skip(0) =~= rest);
            assert(rest =~= seq![]);
            assert(path_parts(unix, rest) =~= seq![]);
            assert(whole.parts.skip(k) =~= seq![]);
        } else {
            let first = part_position(pieces, 0, k, dots);
            let last = part_position(pieces, 0, total - 1, dots);
            let body = path.skip(body_start(unix, path));
            lemma_part_end(unix, path, k);
            lemma_part_end(unix, path, total - 1);
            lemma_part_position(pieces, 0, total - 1, dots);
            lemma_last_part(pieces, 0, dots);
            assert(first <= last);
            let cut = body.take(piece_end(pieces, last) as int);
            lemma_piece_end(body, '/', last);
            lemma_cut_pieces(body, '/', last);
            let shorter = pieces.take(last + 1);
            lemma_piece_start_in_front(shorter, pieces.skip(last + 1), first);
            assert(shorter + pieces.skip(last + 1) =~= pieces);
            lemma_skip_pieces(cut, '/', first);
            lemma_piece_order(pieces, first, last);
            assert(rest =~= cut.skip(piece_start(pieces, first) as int));
            assert(shorter.skip(first) =~= pieces.subrange(first, last + 1));
            lemma_parts_skipped(pieces, 0, k, dots, last);
            lemma_first_piece(unix, false, rest);
            let found = pieces_of(unix, false, rest);
            assert(found =~= pieces.subrange(first, last + 1));
            lemma_part_is(pieces, 0, k, dots);
            assert(found[0] == pieces[first]);
            assert(rest.len() > 0) by {
                if rest.len() == 0 {
                    assert(found[0].len() == 0);
                }
            }
            assert(rest.skip(0) =~= rest);
            assert(path_parts(unix, rest) =~= whole.parts.skip(k));
        }
        assert(path_components(unix, rest) =~= (PathModel {
            prefix: None,
            rooted: false,
            parts: whole.parts.skip(k),
        }));
    }
}

/// The piece at the position of a component is a component.
proof fn lemma_part_is(pieces: Seq<Seq<char>>, i: int, k: int, dots: Dots)
    requires
        0 <= i <= pieces.len(),
        0 <= k < parts_from(pieces, i, dots).len(),
    ensures
        is_part(pieces, part_position(pieces, i, k, dots), dots),
    decreases pieces.len() - i,
{
    if is_part(pieces, i, dots) {
        if k > 0 {
            lemma_part_is(pieces, i + 1, k - 1, dots);
        }
    } else {
        lemma_part_is(pieces, i + 1, k, dots);
    }
}

/// Two texts name the same path exactly where their components are the same: prefix, root and names.
pub proof fn law_same_path_means_same_components(platform: Platform, a: Seq<char>, b: Seq<char>)
    ensures
        same_path_text(platform, a, b) <==> {
            let first = path_components(platform, a);
            let second = path_components(platform, b);
            &&& first.prefix == second.prefix
            &&& first.rooted == second.rooted
            &&& first.parts.len() == second.parts.len()
            &&& forall|i: int|
                0 <= i < first.parts.len() ==> #[trigger] first.parts[i] == second.parts[i]
        },
{
    let first = path_components(platform, a);
    let second = path_components(platform, b);
    if first.prefix == second.prefix && first.rooted == second.rooted && first.parts.len()
        == second.parts.len() && (forall|i: int|
        0 <= i < first.parts.len() ==> #[trigger] first.parts[i] == second.parts[i]) {
        assert(first =~= second);
    }
}

/// A child below a base is written behind it, with one separator between them where the base does not
/// end with one; nothing stands between a drive, or nothing, and its child.
pub proof fn law_child_is_written_behind_its_base(
    platform: Platform,
    base: Seq<char>,
    child: Seq<char>,
)
    requires
        !is_literal(platform, base),
    ensures
        base.len() == 0 ==> joined(platform, base, child) == child,
        base.len() > 0 && platform::separates(platform, base.last()) ==> joined(
            platform,
            base,
            child,
        ) == base + child,
        platform == Platform::Unix && base.len() > 0 && base.last() != '/' ==> joined(
            platform,
            base,
            child,
        ) == base + "/"@ + child,
        base.is_prefix_of(joined(platform, base, child)),
        joined(platform, base, child).len() <= base.len() + 1 + child.len(),
{
    reveal_strlit("/");
    assert("/"@ =~= seq!['/']);
    let path = joined(platform, base, child);
    if base.len() == 0 {
        assert(base + child =~= child);
    }
    assert(path.take(base.len() as int) =~= base);
}

/// The parent of a path and what follows a base in it are written as they stand in the path.
pub proof fn law_parents_are_written_as_in_the_path(platform: Platform, path: Seq<char>)
    ensures
        parent_text(platform, path) matches Some(parent) ==> parent.is_prefix_of(path) && parent.len()
            < path.len(),
{
    if parent_text(platform, path) is Some {
        let parent = parent_text(platform, path)->Some_0;
        let total = path_parts(platform, path).len();
        path_prefix::lemma_prefix_len(platform, path);
        lemma_bare_end(platform, path);
        lemma_part_end(platform, path, total - 1);
        if total > 1 {
            lemma_part_end(platform, path, total - 2);
        }
        assert(path.take(parent.len() as int) =~= parent);
        if parent.len() == path.len() {
            assert(parent =~= path);
            law_parent_drops_the_last_component(platform, path);
        }
    }
}

} // verus!
