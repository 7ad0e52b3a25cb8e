//! What a Windows path can begin with: a drive, a share, a device, or one of these taken literally.

use crate::platform::{is_separator, separates, Platform};
use crate::text;
use vstd::prelude::*;

verus! {

/// The prefix of a path. After the first three, paths are taken literally: only a backslash
/// separates, and single dots are names.
#[derive(Debug)]
pub enum Prefix {
    /// `\\?\name`
    Verbatim(String),
    /// `\\?\UNC\server\share`
    VerbatimShare(String, String),
    /// `\\?\C:`
    VerbatimDisk(char),
    /// `\\.\device`
    Device(String),
    /// `\\server\share`
    Share(String, String),
    /// `C:`
    Disk(char),
}

/// The model of the prefix of a path.
pub enum PrefixModel {
    Verbatim(Seq<char>),
    VerbatimShare(Seq<char>, Seq<char>),
    VerbatimDisk(char),
    Device(Seq<char>),
    Share(Seq<char>, Seq<char>),
    Disk(char),
}

impl View for Prefix {
    type V = PrefixModel;

    open spec fn view(&self) -> PrefixModel {
        match *self {
            Prefix::Verbatim(name) => PrefixModel::Verbatim(name@),
            Prefix::VerbatimShare(server, share) => PrefixModel::VerbatimShare(server@, share@),
            Prefix::VerbatimDisk(drive) => PrefixModel::VerbatimDisk(drive),
            Prefix::Device(name) => PrefixModel::Device(name@),
            Prefix::Share(server, share) => PrefixModel::Share(server@, share@),
            Prefix::Disk(drive) => PrefixModel::Disk(drive),
        }
    }
}

/// The model of a prefix that a path may have.
pub open spec fn prefix_option(prefix: Option<Prefix>) -> Option<PrefixModel> {
    match prefix {
        Some(prefix) => Some(prefix@),
        None => None,
    }
}

/// Whether a path with this prefix is taken literally.
pub open spec fn is_verbatim(prefix: Option<PrefixModel>) -> bool {
    match prefix {
        Some(PrefixModel::Verbatim(_)) => true,
        Some(PrefixModel::VerbatimShare(_, _)) => true,
        Some(PrefixModel::VerbatimDisk(_)) => true,
        _ => false,
    }
}

/// Whether a path with this prefix starts at a root though it has no separator there.
pub open spec fn implies_root(prefix: Option<PrefixModel>) -> bool {
    match prefix {
        Some(PrefixModel::Device(_)) => true,
        Some(PrefixModel::Share(_, _)) => true,
        _ => false,
    }
}

/// The length of a share behind the name of its server, with the separator before it.
pub open spec fn share_len(share: Seq<char>) -> nat {
    if share.len() > 0 {
        1 + share.len()
    } else {
        0
    }
}

/// The length of a prefix.
pub open spec fn prefix_len(prefix: Option<PrefixModel>) -> nat {
    match prefix {
        None => 0,
        Some(PrefixModel::Verbatim(name)) => 4 + name.len(),
        Some(PrefixModel::VerbatimShare(server, share)) => 8 + server.len() + share_len(share),
        Some(PrefixModel::VerbatimDisk(_)) => 6,
        Some(PrefixModel::Device(name)) => 4 + name.len(),
        Some(PrefixModel::Share(server, share)) => 2 + server.len() + share_len(share),
        Some(PrefixModel::Disk(_)) => 2,
    }
}

/// A text in which one character stands for every separator: the backslash where a slash separates
/// like it.
pub open spec fn folded(platform: Platform, verbatim: bool, s: Seq<char>) -> Seq<char> {
    if platform == Platform::Windows && !verbatim {
        s.map_values(
            |c: char|
                if c == '/' {
                    '\\'
                } else {
                    c
                },
        )
    } else {
        s
    }
}

/// The position of the first separator of a Windows path, or its length.
pub open spec fn name_len(s: Seq<char>, verbatim: bool) -> int {
    text::find_char(folded(Platform::Windows, verbatim, s), '\\')
}

/// The name before the first separator of a Windows path.
pub open spec fn first_name(s: Seq<char>, verbatim: bool) -> Seq<char> {
    s.take(name_len(s, verbatim))
}

/// What follows the first separator of a Windows path.
pub open spec fn after_name(s: Seq<char>, verbatim: bool) -> Seq<char> {
    if name_len(s, verbatim) < s.len() {
        s.skip(name_len(s, verbatim) + 1)
    } else {
        seq![]
    }
}

/// Whether a character is a letter that a drive can have.
pub open spec fn is_letter(c: char) -> bool {
    'a' <= c <= 'z' || 'A' <= c <= 'Z'
}

/// A letter as a capital.
pub open spec fn capital(c: char) -> char {
    if 'a' <= c <= 'z' {
        (c as u8 - 32) as char
    } else {
        c
    }
}

/// Whether a text begins with a drive.
pub open spec fn begins_with_drive(s: Seq<char>) -> bool {
    s.len() >= 2 && is_letter(s[0]) && s[1] == ':'
}

/// Whether a text begins with two separators.
pub open spec fn begins_with_two(s: Seq<char>) -> bool {
    s.len() >= 2 && separates(Platform::Windows, s[0]) && separates(Platform::Windows, s[1])
}

/// Whether a path begins with `\\?\`, in backslashes.
pub open spec fn begins_verbatim(s: Seq<char>) -> bool {
    s.len() >= 4 && s[0] == '\\' && s[1] == '\\' && s[2] == '?' && s[3] == '\\'
}

/// Whether a path that begins with `\\?\` goes on with `UNC` and a separator.
pub open spec fn names_share(s: Seq<char>) -> bool {
    s.len() >= 8 && s[4] == 'U' && s[5] == 'N' && s[6] == 'C' && separates(Platform::Windows, s[7])
}

/// Whether a path that begins with `\\?\` goes on with a drive and nothing else before a separator.
pub open spec fn names_drive(s: Seq<char>) -> bool {
    begins_with_drive(s.skip(4)) && (s.len() == 6 || separates(Platform::Windows, s[6]))
}

/// Whether a path that begins with two separators goes on with a dot and a separator.
pub open spec fn names_device(s: Seq<char>) -> bool {
    s.len() >= 4 && s[2] == '.' && separates(Platform::Windows, s[3])
}

/// The prefix of a path: on Unix there is none.
pub open spec fn prefix_of(platform: Platform, path: Seq<char>) -> Option<PrefixModel> {
    if platform == Platform::Unix {
        None
    } else if begins_with_two(path) {
        if begins_verbatim(path) {
            if names_share(path) {
                let rest = path.skip(8);
                Some(
                    PrefixModel::VerbatimShare(
                        first_name(rest, true),
                        first_name(after_name(rest, true), true),
                    ),
                )
            } else if names_drive(path) {
                Some(PrefixModel::VerbatimDisk(capital(path[4])))
            } else {
                Some(PrefixModel::Verbatim(first_name(path.skip(4), true)))
            }
        } else if names_device(path) {
            Some(PrefixModel::Device(first_name(path.skip(4), false)))
        } else {
            let server = first_name(path.skip(2), false);
            let share = first_name(after_name(path.skip(2), false), false);
            if server.len() > 0 && share.len() > 0 {
                Some(PrefixModel::Share(server, share))
            } else {
                None
            }
        }
    } else if begins_with_drive(path) {
        Some(PrefixModel::Disk(capital(path[0])))
    } else {
        None
    }
}

/// The first name is a part of the text, and what follows it fits behind it.
proof fn lemma_first_name(s: Seq<char>, verbatim: bool)
    ensures
        0 <= name_len(s, verbatim) <= s.len(),
        first_name(s, verbatim).len() == name_len(s, verbatim),
        after_name(s, verbatim).len() > 0 ==> name_len(s, verbatim) + 1 + after_name(
            s,
            verbatim,
        ).len() == s.len(),
{
    text::lemma_find_char(folded(Platform::Windows, verbatim, s), '\\');
}

/// A prefix is no longer than its path.
pub proof fn lemma_prefix_len(platform: Platform, path: Seq<char>)
    ensures
        prefix_len(prefix_of(platform, path)) <= path.len(),
{
    if path.len() >= 8 {
        lemma_first_name(path.skip(8), true);
        lemma_first_name(after_name(path.skip(8), true), true);
    }
    if path.len() >= 4 {
        lemma_first_name(path.skip(4), true);
        lemma_first_name(path.skip(4), false);
    }
    if path.len() >= 2 {
        lemma_first_name(path.skip(2), false);
        lemma_first_name(after_name(path.skip(2), false), false);
    }
}

/// A name ends at a separator, or with the text.
proof fn lemma_name_ends(s: Seq<char>, verbatim: bool)
    ensures
        name_len(s, verbatim) < s.len() ==> separates(Platform::Windows, s[name_len(s, verbatim)]),
        after_name(s, verbatim).len() > 0 ==> after_name(s, verbatim) == s.skip(
            name_len(s, verbatim) + 1,
        ),
{
    text::lemma_find_char(folded(Platform::Windows, verbatim, s), '\\');
}

/// Where a prefix that is no drive ends, a separator follows, or the path ends too.
pub proof fn lemma_separator_follows(platform: Platform, path: Seq<char>)
    requires
        prefix_of(platform, path) is Some,
        !(prefix_of(platform, path)->Some_0 is Disk),
        prefix_len(prefix_of(platform, path)) < path.len(),
    ensures
        separates(platform, path[prefix_len(prefix_of(platform, path)) as int]),
{
    let literal = begins_verbatim(path);
    let (rest, from) = if literal && names_share(path) {
        (path.skip(8), 8int)
    } else if literal || names_device(path) {
        (path.skip(4), 4int)
    } else {
        (path.skip(2), 2int)
    };
    lemma_first_name(rest, literal);
    lemma_name_ends(rest, literal);
    let at = name_len(rest, literal);
    let after = after_name(rest, literal);
    if at < rest.len() {
        assert(rest[at] == path[from + at]);
    }
    lemma_first_name(after, literal);
    lemma_name_ends(after, literal);
    let next = name_len(after, literal);
    if next < after.len() {
        assert(after[next] == path[from + at + 1 + next]);
    }
}

/// A name that ends inside of a shorter text is the same there.
proof fn lemma_name_kept(s: Seq<char>, verbatim: bool, n: int)
    requires
        0 <= n <= s.len(),
    ensures
        name_len(s, verbatim) < n ==> name_len(s.take(n), verbatim) == name_len(s, verbatim)
            && first_name(s.take(n), verbatim) == first_name(s, verbatim) && after_name(
            s.take(n),
            verbatim,
        ) == after_name(s, verbatim).take(n - name_len(s, verbatim) - 1),
        name_len(s, verbatim) >= n ==> name_len(s.take(n), verbatim) == n,
{
    let whole = folded(Platform::Windows, verbatim, s);
    let part = folded(Platform::Windows, verbatim, s.take(n));
    let at = name_len(s, verbatim);
    text::lemma_find_char(whole, '\\');
    assert(forall|i: int| 0 <= i < n ==> part[i] == whole[i]);
    if at < n {
        text::lemma_find_char_is(part, '\\', at);
        assert(first_name(s.take(n), verbatim) =~= first_name(s, verbatim));
        assert(after_name(s.take(n), verbatim) =~= after_name(s, verbatim).take(n - at - 1));
    } else {
        text::lemma_find_char_is(part, '\\', n);
    }
}

/// A path has its prefix still where it is cut behind the separator that follows, or, where the
/// prefix is a drive or missing, anywhere behind it.
pub proof fn lemma_prefix_kept(platform: Platform, path: Seq<char>, n: int)
    requires
        prefix_len(prefix_of(platform, path)) <= n <= path.len(),
        prefix_of(platform, path) is Some && !(prefix_of(platform, path)->Some_0 is Disk)
            ==> prefix_len(prefix_of(platform, path)) < n,
    ensures
        prefix_of(platform, path.take(n)) == prefix_of(platform, path),
{
    let part = path.take(n);
    if platform == Platform::Windows && begins_with_two(path) && n >= 2 {
        if prefix_of(platform, path) is Some {
            lemma_long_prefix_kept(path, n);
        } else {
            let rest = path.skip(2);
            assert(part.skip(2) =~= rest.take(n - 2));
            lemma_first_name(rest, false);
            lemma_name_ends(rest, false);
            lemma_name_kept(rest, false, n - 2);
            let at = name_len(rest, false);
            lemma_first_name(after_name(rest, false), false);
            if at < n - 2 {
                lemma_name_kept(after_name(rest, false), false, n - 2 - at - 1);
            } else {
                lemma_first_name(after_name(part.skip(2), false), false);
            }
            assert(prefix_of(platform, part) is None);
        }
    }
}

/// A prefix that begins with two separators is kept where the path is cut behind the separator that
/// follows.
#[verifier::rlimit(50)]
proof fn lemma_long_prefix_kept(path: Seq<char>, n: int)
    requires
        begins_with_two(path),
        prefix_of(Platform::Windows, path) is Some,
        prefix_len(prefix_of(Platform::Windows, path)) < n <= path.len(),
    ensures
        prefix_of(Platform::Windows, path.take(n)) == prefix_of(Platform::Windows, path),
{
    let part = path.take(n);
    let literal = begins_verbatim(path);
    let from = if literal && names_share(path) {
        8int
    } else if literal || names_device(path) {
        4int
    } else {
        2int
    };
    let rest = path.skip(from);
    let at = name_len(rest, literal);
    let after = after_name(rest, literal);
    lemma_first_name(rest, literal);
    lemma_name_ends(rest, literal);
    lemma_first_name(after, literal);
    if literal && names_drive(path) && !names_share(path) {
        assert(path.skip(4)[0] == path[4]);
        assert(path.skip(4)[1] == path[5]);
        assert(part.skip(4)[0] == part[4]);
        assert(part.skip(4)[1] == part[5]);
        assert(prefix_of(Platform::Windows, part) == prefix_of(Platform::Windows, path));
    } else {
        assert(part.skip(from) =~= rest.take(n - from));
        lemma_name_kept(rest, literal, n - from);
        assert(at < n - from);
        if from != 4 {
            let m = n - from - at - 1;
            assert(after =~= rest.skip(at + 1));
            lemma_name_kept(after, literal, m);
            lemma_first_name(after.take(m), literal);
            assert(first_name(after.take(m), literal) =~= first_name(after, literal));
        } else if literal && begins_with_drive(part.skip(4)) {
            assert(part.skip(4)[0] == rest[0]);
            assert(part.skip(4)[1] == rest[1]);
            text::lemma_find_char(folded(Platform::Windows, true, rest), '\\');
            assert(at >= 2);
            assert(begins_with_drive(path.skip(4)));
            assert(part[6] == path[6]);
        }
        assert(prefix_of(Platform::Windows, part) == prefix_of(Platform::Windows, path));
    }
}

/// A letter as a capital.
fn to_capital(c: char) -> (r: char)
    ensures
        r == capital(c),
{
    if 'a' <= c && c <= 'z' {
        (c as u8 - 32) as char
    } else {
        c
    }
}

/// Whether a character is a letter that a drive can have.
fn is_drive_letter(c: char) -> (r: bool)
    ensures
        r == is_letter(c),
{
    ('a' <= c && c <= 'z') || ('A' <= c && c <= 'Z')
}

/// The end of the name that begins at `from`: the position of the next separator, or the length.
fn name_end(chars: &Vec<char>, from: usize, verbatim: bool) -> (at: usize)
    requires
        from <= chars@.len(),
    ensures
        from <= at <= chars@.len(),
        at - from == name_len(chars@.skip(from as int), verbatim),
{
    let mut at: usize = from;
    while at < chars.len() && !(chars[at] == '\\' || (!verbatim && chars[at] == '/'))
        invariant
            from <= at <= chars@.len(),
            forall|i: int|
                from <= i < at ==> !(chars@[i] == '\\' || (!verbatim && chars@[i] == '/')),
        decreases chars@.len() - at,
    {
        at = at + 1;
    }
    proof {
        let rest = folded(Platform::Windows, verbatim, chars@.skip(from as int));
        assert forall|i: int| 0 <= i < at - from implies rest[i] != '\\' by {
            assert(chars@.skip(from as int)[i] == chars@[from + i]);
        }
        text::lemma_find_char_is(rest, '\\', at - from);
    }
    at
}

/// The name that begins at `from`.
fn name_at(chars: &Vec<char>, from: usize, verbatim: bool) -> (r: String)
    requires
        from <= chars@.len(),
    ensures
        r@ == first_name(chars@.skip(from as int), verbatim),
{
    let end: usize = name_end(chars, from, verbatim);
    let r = text::from_chars(chars, from, end);
    assert(r@ =~= first_name(chars@.skip(from as int), verbatim));
    r
}

/// The name that begins at `from`, and the one behind the separator after it.
fn two_names(chars: &Vec<char>, from: usize, verbatim: bool) -> (r: (String, String))
    requires
        from <= chars@.len(),
    ensures
        r.0@ == first_name(chars@.skip(from as int), verbatim),
        r.1@ == first_name(after_name(chars@.skip(from as int), verbatim), verbatim),
{
    let end: usize = name_end(chars, from, verbatim);
    let first = text::from_chars(chars, from, end);
    let ghost s = chars@.skip(from as int);
    assert(first@ =~= first_name(s, verbatim));
    if end == chars.len() {
        let none: String = String::new();
        assert(after_name(s, verbatim) =~= seq![]);
        assert(none@ =~= first_name(after_name(s, verbatim), verbatim)) by {
            lemma_first_name(after_name(s, verbatim), verbatim);
        }
        (first, none)
    } else {
        assert(after_name(s, verbatim) =~= chars@.skip(end + 1));
        (first, name_at(chars, end + 1, verbatim))
    }
}

/// The prefix of a path that begins with two separators.
fn long_prefix(chars: &Vec<char>) -> (r: Option<Prefix>)
    requires
        begins_with_two(chars@),
    ensures
        prefix_option(r) == prefix_of(Platform::Windows, chars@),
{
    let n: usize = chars.len();
    if n >= 4 && chars[0] == '\\' && chars[1] == '\\' && chars[2] == '?' && chars[3] == '\\' {
        if n >= 8 && chars[4] == 'U' && chars[5] == 'N' && chars[6] == 'C' && is_separator(
            Platform::Windows,
            chars[7],
        ) {
            let (server, share) = two_names(chars, 8, true);
            return Some(Prefix::VerbatimShare(server, share));
        }
        if n >= 6 && is_drive_letter(chars[4]) && chars[5] == ':' && (n == 6 || is_separator(
            Platform::Windows,
            chars[6],
        )) {
            assert(chars@.skip(4)[0] == chars@[4]);
            assert(chars@.skip(4)[1] == chars@[5]);
            return Some(Prefix::VerbatimDisk(to_capital(chars[4])));
        }
        return Some(Prefix::Verbatim(name_at(chars, 4, true)));
    }
    if n >= 4 && chars[2] == '.' && is_separator(Platform::Windows, chars[3]) {
        return Some(Prefix::Device(name_at(chars, 4, false)));
    }
    let (server, share) = two_names(chars, 2, false);
    if text::to_chars(server.as_str()).len() > 0 && text::to_chars(share.as_str()).len() > 0 {
        Some(Prefix::Share(server, share))
    } else {
        None
    }
}

/// The prefix of a path: on Unix there is none.
pub fn parse_prefix(platform: Platform, chars: &Vec<char>) -> (r: Option<Prefix>)
    ensures
        prefix_option(r) == prefix_of(platform, chars@),
{
    if platform == Platform::Unix {
        return None;
    }
    let n: usize = chars.len();
    if n >= 2 && is_separator(platform, chars[0]) && is_separator(platform, chars[1]) {
        long_prefix(chars)
    } else if n >= 2 && is_drive_letter(chars[0]) && chars[1] == ':' {
        Some(Prefix::Disk(to_capital(chars[0])))
    } else {
        None
    }
}

/// Whether two prefixes are the same.
pub fn same_prefix(a: &Prefix, b: &Prefix) -> (r: bool)
    ensures
        r == (a@ == b@),
{
    match (a, b) {
        (Prefix::Verbatim(x), Prefix::Verbatim(y)) => text::same(x.as_str(), y.as_str()),
        (Prefix::VerbatimShare(x, v), Prefix::VerbatimShare(y, w)) => text::same(
            x.as_str(),
            y.as_str(),
        ) && text::same(v.as_str(), w.as_str()),
        (Prefix::VerbatimDisk(x), Prefix::VerbatimDisk(y)) => *x == *y,
        (Prefix::Device(x), Prefix::Device(y)) => text::same(x.as_str(), y.as_str()),
        (Prefix::Share(x, v), Prefix::Share(y, w)) => text::same(x.as_str(), y.as_str())
            && text::same(v.as_str(), w.as_str()),
        (Prefix::Disk(x), Prefix::Disk(y)) => *x == *y,
        _ => false,
    }
}

/// The length of a share behind the name of its server.
fn share_length(share: &String) -> (r: usize)
    requires
        share@.len() < usize::MAX,
    ensures
        r == share_len(share@),
{
    let n: usize = text::to_chars(share.as_str()).len();
    if n > 0 {
        n + 1
    } else {
        0
    }
}

/// The length of the prefix of a path.
pub fn prefix_length(platform: Platform, chars: &Vec<char>, prefix: &Option<Prefix>) -> (r: usize)
    requires
        prefix_option(*prefix) == prefix_of(platform, chars@),
    ensures
        r == prefix_len(prefix_of(platform, chars@)),
        r <= chars@.len(),
{
    let size: usize = chars.len();
    proof {
        lemma_prefix_len(platform, chars@);
        assert(prefix_len(prefix_option(*prefix)) <= size);
    }
    match prefix {
        None => 0,
        Some(Prefix::Verbatim(name)) => 4 + text::to_chars(name.as_str()).len(),
        Some(Prefix::VerbatimShare(server, share)) => 8 + text::to_chars(server.as_str()).len()
            + share_length(share),
        Some(Prefix::VerbatimDisk(_)) => 6,
        Some(Prefix::Device(name)) => 4 + text::to_chars(name.as_str()).len(),
        Some(Prefix::Share(server, share)) => 2 + text::to_chars(server.as_str()).len()
            + share_length(share),
        Some(Prefix::Disk(_)) => 2,
    }
}

/// The forms of a Windows prefix: a drive, whose letter may be a capital or not; a server and a
/// share behind two separators of either kind; a device; and behind `\\?\`, in backslashes, a drive, a
/// share or any name, after which a path is taken literally. On Unix there is no prefix.
#[verifier::rlimit(50)]
pub proof fn law_forms_of_a_prefix(
    letter: char,
    name: Seq<char>,
    share: Seq<char>,
    rest: Seq<char>,
    a: char,
    b: char,
    c: char,
    d: char,
    path: Seq<char>,
)
    requires
        is_letter(letter),
        separates(Platform::Windows, a),
        separates(Platform::Windows, b),
        separates(Platform::Windows, c),
        separates(Platform::Windows, d),
        name.len() > 0,
        share.len() > 0,
        name[0] != '?',
        name[0] != '.',
        forall|i: int| 0 <= i < name.len() ==> !separates(Platform::Windows, #[trigger] name[i]),
        forall|i: int| 0 <= i < share.len() ==> !separates(Platform::Windows, #[trigger] share[i]),
    ensures
        prefix_of(Platform::Unix, path) is None,
        prefix_of(Platform::Windows, seq![letter, ':'] + rest) == Some(
            PrefixModel::Disk(capital(letter)),
        ),
        prefix_of(Platform::Windows, seq![a, b] + name + seq![c] + share + seq![d] + rest) == Some(
            PrefixModel::Share(name, share),
        ),
        prefix_of(Platform::Windows, seq!['\\', '\\', '?', '\\', letter, ':', d] + rest) == Some(
            PrefixModel::VerbatimDisk(capital(letter)),
        ),
        prefix_of(Platform::Windows, seq![a, b, '.', c] + name + seq![d] + rest) == Some(
            PrefixModel::Device(name),
        ),
        is_verbatim(Some(PrefixModel::VerbatimDisk(letter))),
        !is_verbatim(Some(PrefixModel::Disk(letter))) && !is_verbatim(
            Some(PrefixModel::Share(name, share)),
        ),
        'a' <= letter <= 'z' ==> capital(letter) as u32 == letter as u32 - 32,
        'A' <= letter <= 'Z' ==> capital(letter) == letter,
        prefix_len(Some(PrefixModel::Disk(letter))) == 2,
        prefix_len(Some(PrefixModel::VerbatimDisk(letter))) == 6,
        prefix_len(Some(PrefixModel::Share(name, share))) == 3 + name.len() + share.len(),
{
    let disk = seq![letter, ':'] + rest;
    assert(disk[0] == letter && disk[1] == ':');
    let literal = seq!['\\', '\\', '?', '\\', letter, ':', d] + rest;
    assert(literal[0] == '\\' && literal[1] == '\\' && literal[2] == '?' && literal[3] == '\\');
    assert(literal[4] == letter && literal[5] == ':' && literal[6] == d);
    assert(literal.skip(4)[0] == letter && literal.skip(4)[1] == ':');
    let shared = seq![a, b] + name + seq![c] + share + seq![d] + rest;
    let tail = name + seq![c] + (share + seq![d] + rest);
    assert(shared[0] == a && shared[1] == b && shared[2] == name[0]);
    assert(shared.skip(2) =~= tail);
    lemma_first_name_is(name, c, share + seq![d] + rest);
    lemma_first_name_is(share, d, rest);
    let device = seq![a, b, '.', c] + name + seq![d] + rest;
    assert(device[0] == a && device[1] == b && device[2] == '.' && device[3] == c);
    assert(device.skip(4) =~= name + seq![d] + rest);
    lemma_first_name_is(name, d, rest);
}

/// The first name of a text is what stands before its first separator.
proof fn lemma_first_name_is(name: Seq<char>, c: char, rest: Seq<char>)
    requires
        separates(Platform::Windows, c),
        forall|i: int| 0 <= i < name.len() ==> !separates(Platform::Windows, #[trigger] name[i]),
    ensures
        first_name(name + seq![c] + rest, false) == name,
        after_name(name + seq![c] + rest, false) == rest,
{
    let s = name + seq![c] + rest;
    let flat = folded(Platform::Windows, false, s);
    let at = name.len() as int;
    assert(s[at] == c);
    assert forall|i: int| 0 <= i < at implies flat[i] != '\\' by {
        assert(s[i] == name[i]);
    }
    text::lemma_find_char_is(flat, '\\', at);
    assert(s.take(at) =~= name);
    assert(s.skip(at + 1) =~= rest);
}

} // verus!
