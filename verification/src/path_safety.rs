//! The rules that decide whether a pair of paths may take part in a migration.
//!
//! The rules are evaluated in a fixed order and the first one that fails
//! names the verdict. They read the two paths and three facts that the
//! caller observed on the filesystem: the canonical form of each path, and
//! the names found directly inside it.

use crate::text::{chars_of, ends_with, fold, has_prefix_folded, has_suffix, has_suffix_folded, matches_at, same_text_folded, starts_with};
use vstd::prelude::*;

verus! {

/// The longest path that is accepted, in characters.
pub const MAX_PATH_CHARS: usize = 260;

/// A path as given, with what was observed about it.
#[derive(Debug, Clone)]
pub struct PathProbe {
    /// The path as the user gave it.
    pub path: String,
    /// Its canonical form, where the filesystem could resolve it.
    pub canonical: Option<String>,
    /// The names of the entries directly inside it, where it could be listed.
    pub entry_names: Option<Vec<String>>,
}

/// The rule that a pair of paths breaks.
#[derive(Debug, Clone, Copy, PartialEq, Eq, Structural)]
pub enum Violation {
    /// One of the paths is empty.
    EmptyPath,
    /// A segment is `..`.
    ParentReference,
    /// A forbidden character occurs; the index is into `illegal_chars()`.
    IllegalCharacter(usize),
    /// A segment is a reserved device name; the index is into `reserved_names()`.
    ReservedName(usize),
    /// A path is longer than `MAX_PATH_CHARS`.
    TooLong,
    /// Source and target are the same place.
    SameLocation,
    /// The target lies inside the source.
    IntoOwnSubtree,
    /// A path begins with a protected system path; the index is into `blocklist()`.
    Protected(usize),
    /// A path ends in a system file; the index is into `system_files()`.
    SystemFile(usize),
    /// A path is a directory in which a program is installed.
    ProgramDirectory,
}

pub open spec fn is_separator(c: char) -> bool {
    c == '/' || c == '\\'
}

/// `s[a..b]` is one whole segment of `s`: bounded by separators or the ends,
/// with no separator inside.
pub open spec fn is_segment(s: Seq<char>, a: int, b: int) -> bool {
    &&& 0 <= a <= b <= s.len()
    &&& (a == 0 || is_separator(s[a - 1]))
    &&& (b == s.len() || is_separator(s[b]))
    &&& forall|k: int| a <= k < b ==> !is_separator(#[trigger] s[k])
}

/// Some segment of `s` equals `name`, ASCII case ignored.
pub open spec fn has_segment(s: Seq<char>, name: Seq<char>) -> bool {
    exists|a: int, b: int| #[trigger] is_segment(s, a, b) && fold(s.subrange(a, b)) == fold(name)
}

/// The characters that no path may hold.
pub open spec fn illegal_chars() -> Seq<char> {
    seq!['<', '>', ':', '*', '?', '|']
}

/// `c` occurs in `s` at a place where it is not allowed. A colon is allowed
/// at index 1, as the drive separator, on Windows only.
pub open spec fn has_illegal(s: Seq<char>, c: char, windows: bool) -> bool {
    exists|i: int| 0 <= i < s.len() && #[trigger] s[i] == c && !(c == ':' && windows && i == 1)
}

/// The device names that Windows reserves.
pub open spec fn reserved_names() -> Seq<Seq<char>> {
    seq![
        "CON"@, "PRN"@, "AUX"@, "NUL"@,
        "COM1"@, "COM2"@, "COM3"@, "COM4"@, "COM5"@, "COM6"@, "COM7"@, "COM8"@, "COM9"@,
        "LPT1"@, "LPT2"@, "LPT3"@, "LPT4"@, "LPT5"@, "LPT6"@, "LPT7"@, "LPT8"@, "LPT9"@,
    ]
}

/// The system paths under which nothing may be migrated.
pub open spec fn blocklist() -> Seq<Seq<char>> {
    seq![
        "C:\\Windows"@,
        "C:\\Program Files"@,
        "C:\\Program Files (x86)"@,
        "C:\\Users\\Default"@,
        "C:\\Recovery"@,
        "C:\\System Volume Information"@,
        "C:\\$Recycle.Bin"@,
    ]
}

/// The system files that may not be touched.
pub open spec fn system_files() -> Seq<Seq<char>> {
    seq!["pagefile.sys"@, "hiberfil.sys"@, "swapfile.sys"@]
}

/// The roots under which installed programs are looked for.
pub open spec fn program_roots() -> Seq<Seq<char>> {
    seq!["C:\\Program Files"@, "C:\\Users\\"@]
}

/// `s` begins, ASCII case ignored, with entry `i` of `list`.
pub open spec fn begins_with_entry(s: Seq<char>, list: Seq<Seq<char>>, i: int) -> bool {
    0 <= i < list.len() && starts_with(fold(s), fold(list[i]))
}

/// `s` ends, ASCII case ignored, with entry `i` of `list`.
pub open spec fn ends_with_entry(s: Seq<char>, list: Seq<Seq<char>>, i: int) -> bool {
    0 <= i < list.len() && ends_with(fold(s), fold(list[i]))
}

/// `s` begins with some entry of `list`, ASCII case ignored.
pub open spec fn begins_with_any(s: Seq<char>, list: Seq<Seq<char>>) -> bool {
    exists|i: int| begins_with_entry(s, list, i)
}

/// The name of a program file: it ends in `.exe` or `.dll`.
pub open spec fn is_program_file(name: Seq<char>) -> bool {
    ends_with(name, ".exe"@) || ends_with(name, ".dll"@)
}

/// `p` is `root` itself or lies beneath it, compared segment by segment.
pub open spec fn lies_within(p: Seq<char>, root: Seq<char>) -> bool {
    &&& starts_with(p, root)
    &&& (p.len() == root.len() || (root.len() > 0 && is_separator(root.last())) || is_separator(
        p[root.len() as int],
    ))
}

/// The form of a path that rule four compares: the canonical one where known.
pub open spec fn resolved(p: PathProbe) -> Seq<char> {
    match p.canonical {
        Some(c) => c@,
        None => p.path@,
    }
}

/// The path lies under a program root and holds a program file directly.
pub open spec fn is_program_directory(p: PathProbe) -> bool {
    &&& begins_with_any(p.path@, program_roots())
    &&& match p.entry_names {
        Some(names) => holds_program_file(names@),
        None => false,
    }
}

/// One of the names is that of a program file.
pub open spec fn holds_program_file(names: Seq<String>) -> bool {
    exists|i: int| 0 <= i < names.len() && is_program_file(#[trigger] names[i]@)
}

/// The least index below `n` for which `f` holds, if there is one.
pub open spec fn first_index(n: nat, f: spec_fn(int) -> bool) -> Option<int>
    decreases n,
{
    if n == 0 {
        None
    } else {
        match first_index((n - 1) as nat, f) {
            Some(i) => Some(i),
            None => if f(n - 1) {
                Some(n - 1)
            } else {
                None
            },
        }
    }
}

pub proof fn lemma_first_index(n: nat, f: spec_fn(int) -> bool)
    ensures
        match first_index(n, f) {
            Some(i) => 0 <= i < n && f(i) && forall|j: int| 0 <= j < i ==> !#[trigger] f(j),
            None => forall|j: int| 0 <= j < n ==> !#[trigger] f(j),
        },
    decreases n,
{
    if n > 0 {
        lemma_first_index((n - 1) as nat, f);
    }
}

/// Entry `i` of the forbidden characters occurs, where it is not allowed, in `s` or `t`.
pub open spec fn illegal_in_either(s: Seq<char>, t: Seq<char>, windows: bool) -> spec_fn(int) -> bool {
    |i: int| has_illegal(s, illegal_chars()[i], windows) || has_illegal(t, illegal_chars()[i], windows)
}

/// Entry `i` of the reserved names is a segment of `s` or of `t`.
pub open spec fn reserved_in_either(s: Seq<char>, t: Seq<char>) -> spec_fn(int) -> bool {
    |i: int| has_segment(s, reserved_names()[i]) || has_segment(t, reserved_names()[i])
}

/// `s` or `t` begins with entry `i` of `list`.
pub open spec fn begins_in_either(s: Seq<char>, t: Seq<char>, list: Seq<Seq<char>>) -> spec_fn(
    int,
) -> bool {
    |i: int| begins_with_entry(s, list, i) || begins_with_entry(t, list, i)
}

/// `s` or `t` ends with entry `i` of `list`.
pub open spec fn ends_in_either(s: Seq<char>, t: Seq<char>, list: Seq<Seq<char>>) -> spec_fn(
    int,
) -> bool {
    |i: int| ends_with_entry(s, list, i) || ends_with_entry(t, list, i)
}

/// An index at which `f` holds, with none before it, is the first index.
pub proof fn lemma_first_index_is(n: nat, f: spec_fn(int) -> bool, k: int)
    requires
        0 <= k < n,
        f(k),
        forall|j: int| 0 <= j < k ==> !#[trigger] f(j),
    ensures
        first_index(n, f) == Some(k),
{
    lemma_first_index(n, f);
}

/// Where `f` holds nowhere below `n`, there is no first index.
pub proof fn lemma_first_index_none(n: nat, f: spec_fn(int) -> bool)
    requires
        forall|j: int| 0 <= j < n ==> !#[trigger] f(j),
    ensures
        first_index(n, f) is None,
{
    lemma_first_index(n, f);
}

/// The first of the rules on the text of the paths that the pair breaks:
/// empty paths, parent references, forbidden characters, reserved names
/// and length.
pub open spec fn textual_violation(s: Seq<char>, t: Seq<char>, windows: bool) -> Option<Violation> {
    let illegal = first_index(illegal_chars().len(), illegal_in_either(s, t, windows));
    let reserved = first_index(reserved_names().len(), reserved_in_either(s, t));
    if s.len() == 0 || t.len() == 0 {
        Some(Violation::EmptyPath)
    } else if has_segment(s, ".."@) || has_segment(t, ".."@) {
        Some(Violation::ParentReference)
    } else if illegal is Some {
        Some(Violation::IllegalCharacter(illegal->0 as usize))
    } else if reserved is Some {
        Some(Violation::ReservedName(reserved->0 as usize))
    } else if s.len() > MAX_PATH_CHARS || t.len() > MAX_PATH_CHARS {
        Some(Violation::TooLong)
    } else {
        None
    }
}

/// The rule on where the paths lie that the pair breaks: the two are the
/// same place, or the target lies inside the source.
pub open spec fn location_violation(source: Seq<char>, target: Seq<char>) -> Option<Violation> {
    if source == target {
        Some(Violation::SameLocation)
    } else if lies_within(target, source) {
        Some(Violation::IntoOwnSubtree)
    } else {
        None
    }
}

/// The first of the rules that protect the system that the pair breaks:
/// protected system paths, system files and program directories.
pub open spec fn protection_violation(source: PathProbe, target: PathProbe) -> Option<Violation> {
    let s = source.path@;
    let t = target.path@;
    let protected = first_index(blocklist().len(), begins_in_either(s, t, blocklist()));
    let sysfile = first_index(system_files().len(), ends_in_either(s, t, system_files()));
    if protected is Some {
        Some(Violation::Protected(protected->0 as usize))
    } else if sysfile is Some {
        Some(Violation::SystemFile(sysfile->0 as usize))
    } else if is_program_directory(source) || is_program_directory(target) {
        Some(Violation::ProgramDirectory)
    } else {
        None
    }
}

/// The first rule, in order, that the pair breaks; `None` where it breaks none.
pub open spec fn first_violation(source: PathProbe, target: PathProbe, windows: bool) -> Option<
    Violation,
> {
    let textual = textual_violation(source.path@, target.path@, windows);
    let location = location_violation(resolved(source), resolved(target));
    if textual is Some {
        textual
    } else if location is Some {
        location
    } else {
        protection_violation(source, target)
    }
}

/// The character sequences of `list`, one for each string.
pub open spec fn texts(list: Seq<Vec<char>>) -> Seq<Seq<char>> {
    Seq::new(list.len(), |i: int| list[i]@)
}

fn push_text(list: &mut Vec<Vec<char>>, text: &str)
    ensures
        texts(final(list)@) == texts(old(list)@).push(text@),
{
    list.push(chars_of(text));
    proof {
        assert(texts(list@) =~= texts(old(list)@).push(text@));
    }
}

/// The forbidden characters, in the order in which they are reported.
pub fn illegal_char_list() -> (list: Vec<char>)
    ensures
        list@ == illegal_chars(),
{
    let list = vec!['<', '>', ':', '*', '?', '|'];
    proof {
        assert(list@ =~= illegal_chars());
    }
    list
}

/// The reserved device names, in the order in which they are reported.
pub fn reserved_name_list() -> (list: Vec<Vec<char>>)
    ensures
        texts(list@) == reserved_names(),
{
    let mut list: Vec<Vec<char>> = Vec::new();
    proof {
        assert(texts(list@) =~= Seq::<Seq<char>>::empty());
    }
    push_text(&mut list, "CON");
    push_text(&mut list, "PRN");
    push_text(&mut list, "AUX");
    push_text(&mut list, "NUL");
    push_text(&mut list, "COM1");
    push_text(&mut list, "COM2");
    push_text(&mut list, "COM3");
    push_text(&mut list, "COM4");
    push_text(&mut list, "COM5");
    push_text(&mut list, "COM6");
    push_text(&mut list, "COM7");
    push_text(&mut list, "COM8");
    push_text(&mut list, "COM9");
    push_text(&mut list, "LPT1");
    push_text(&mut list, "LPT2");
    push_text(&mut list, "LPT3");
    push_text(&mut list, "LPT4");
    push_text(&mut list, "LPT5");
    push_text(&mut list, "LPT6");
    push_text(&mut list, "LPT7");
    push_text(&mut list, "LPT8");
    push_text(&mut list, "LPT9");
    proof {
        assert(texts(list@) =~= reserved_names());
    }
    list
}

/// The protected system paths, in the order in which they are reported.
pub fn blocklist_entries() -> (list: Vec<Vec<char>>)
    ensures
        texts(list@) == blocklist(),
{
    let mut list: Vec<Vec<char>> = Vec::new();
    proof {
        assert(texts(list@) =~= Seq::<Seq<char>>::empty());
    }
    push_text(&mut list, "C:\\Windows");
    push_text(&mut list, "C:\\Program Files");
    push_text(&mut list, "C:\\Program Files (x86)");
    push_text(&mut list, "C:\\Users\\Default");
    push_text(&mut list, "C:\\Recovery");
    push_text(&mut list, "C:\\System Volume Information");
    push_text(&mut list, "C:\\$Recycle.Bin");
    proof {
        assert(texts(list@) =~= blocklist());
    }
    list
}

/// The protected system files, in the order in which they are reported.
pub fn system_file_list() -> (list: Vec<Vec<char>>)
    ensures
        texts(list@) == system_files(),
{
    let mut list: Vec<Vec<char>> = Vec::new();
    proof {
        assert(texts(list@) =~= Seq::<Seq<char>>::empty());
    }
    push_text(&mut list, "pagefile.sys");
    push_text(&mut list, "hiberfil.sys");
    push_text(&mut list, "swapfile.sys");
    proof {
        assert(texts(list@) =~= system_files());
    }
    list
}

/// The roots under which installed programs are looked for.
pub fn program_root_list() -> (list: Vec<Vec<char>>)
    ensures
        texts(list@) == program_roots(),
{
    let mut list: Vec<Vec<char>> = Vec::new();
    proof {
        assert(texts(list@) =~= Seq::<Seq<char>>::empty());
    }
    push_text(&mut list, "C:\\Program Files");
    push_text(&mut list, "C:\\Users\\");
    proof {
        assert(texts(list@) =~= program_roots());
    }
    list
}

/// Whether `c` separates the segments of a path.
pub fn separates(c: char) -> (r: bool)
    ensures
        r == is_separator(c),
{
    c == '/' || c == '\\'
}

/// Whether some segment of `s` equals `name`, ASCII case ignored.
pub fn segment_matches(s: &Vec<char>, name: &Vec<char>) -> (r: bool)
    ensures
        r == has_segment(s@, name@),
{
    let n = s.len();
    let mut start: usize = 0;
    let mut i: usize = 0;
    let mut found = false;
    loop
        invariant
            n == s@.len(),
            start <= i <= n,
            start == 0 || is_separator(s@[start - 1]),
            forall|k: int| start <= k < i ==> !is_separator(#[trigger] s@[k]),
            forall|a: int, b: int|
                #[trigger] is_segment(s@, a, b) && b < i ==> fold(s@.subrange(a, b)) != fold(name@),
        ensures
            found == has_segment(s@, name@),
        decreases n - i,
    {
        let at_end = i == n;
        if at_end || separates(s[i]) {
            assert(is_segment(s@, start as int, i as int));
            let mut piece: Vec<char> = Vec::new();
            let mut k: usize = start;
            while k < i
                invariant
                    start <= k <= i <= n,
                    n == s@.len(),
                    piece@ == s@.subrange(start as int, k as int),
                decreases i - k,
            {
                piece.push(s[k]);
                proof {
                    assert(s@.subrange(start as int, k + 1) =~= s@.subrange(
                        start as int,
                        k as int,
                    ).push(s@[k as int]));
                }
                k += 1;
            }
            if same_text_folded(&piece, name) {
                found = true;
                break ;
            }
            assert forall|a: int, b: int| #[trigger] is_segment(s@, a, b) && b < i + 1 implies fold(
                s@.subrange(a, b),
            ) != fold(name@) by {
                if b == i {
                    if a < start {
                        assert(is_separator(s@[start - 1]));
                    } else if a > start {
                        assert(is_separator(s@[a - 1]));
                    }
                }
            }
            if at_end {
                found = false;
                assert forall|a: int, b: int| #[trigger] is_segment(s@, a, b) implies fold(
                    s@.subrange(a, b),
                ) != fold(name@) by {}
                break ;
            }
            start = i + 1;
        }
        i += 1;
    }
    found
}

/// Whether `c` occurs in `s` where it is not allowed.
pub fn mentions_illegal(s: &Vec<char>, c: char, windows: bool) -> (r: bool)
    ensures
        r == has_illegal(s@, c, windows),
{
    let mut i: usize = 0;
    while i < s.len()
        invariant
            i <= s@.len(),
            forall|j: int| 0 <= j < i ==> !(#[trigger] s@[j] == c && !(c == ':' && windows && j == 1)),
        decreases s@.len() - i,
    {
        if s[i] == c && !(c == ':' && windows && i == 1) {
            return true;
        }
        i += 1;
    }
    false
}

/// The index of the first forbidden character that `s` or `t` holds where it may not.
pub fn first_illegal(s: &Vec<char>, t: &Vec<char>, windows: bool) -> (r: Option<usize>)
    ensures
        match first_index(illegal_chars().len(), illegal_in_either(s@, t@, windows)) {
            Some(i) => r == Some(i as usize),
            None => r is None,
        },
{
    let list = illegal_char_list();
    let ghost f = illegal_in_either(s@, t@, windows);
    let mut k: usize = 0;
    while k < list.len()
        invariant
            list@ == illegal_chars(),
            k <= list@.len(),
            f == illegal_in_either(s@, t@, windows),
            forall|j: int| 0 <= j < k ==> !#[trigger] f(j),
        decreases list@.len() - k,
    {
        if mentions_illegal(s, list[k], windows) || mentions_illegal(t, list[k], windows) {
            proof {
                lemma_first_index_is(illegal_chars().len(), f, k as int);
            }
            return Some(k);
        }
        k += 1;
    }
    proof {
        lemma_first_index_none(illegal_chars().len(), f);
    }
    None
}

/// The index of the first reserved name that is a segment of `s` or of `t`.
pub fn first_reserved(s: &Vec<char>, t: &Vec<char>) -> (r: Option<usize>)
    ensures
        match first_index(reserved_names().len(), reserved_in_either(s@, t@)) {
            Some(i) => r == Some(i as usize),
            None => r is None,
        },
{
    let list = reserved_name_list();
    let ghost f = reserved_in_either(s@, t@);
    let mut k: usize = 0;
    while k < list.len()
        invariant
            texts(list@) == reserved_names(),
            k <= list@.len(),
            f == reserved_in_either(s@, t@),
            forall|j: int| 0 <= j < k ==> !#[trigger] f(j),
        decreases list@.len() - k,
    {
        assert(texts(list@)[k as int] == list@[k as int]@);
        if segment_matches(s, &list[k]) || segment_matches(t, &list[k]) {
            proof {
                lemma_first_index_is(reserved_names().len(), f, k as int);
            }
            return Some(k);
        }
        k += 1;
    }
    proof {
        lemma_first_index_none(reserved_names().len(), f);
    }
    None
}

/// The index of the first entry of `list` with which `s` or `t` begins, ASCII case ignored.
pub fn first_prefix(s: &Vec<char>, t: &Vec<char>, list: &Vec<Vec<char>>) -> (r: Option<usize>)
    ensures
        match first_index(texts(list@).len(), begins_in_either(s@, t@, texts(list@))) {
            Some(i) => r == Some(i as usize),
            None => r is None,
        },
{
    let ghost f = begins_in_either(s@, t@, texts(list@));
    let mut k: usize = 0;
    while k < list.len()
        invariant
            k <= list@.len(),
            f == begins_in_either(s@, t@, texts(list@)),
            forall|j: int| 0 <= j < k ==> !#[trigger] f(j),
        decreases list@.len() - k,
    {
        assert(texts(list@)[k as int] == list@[k as int]@);
        if has_prefix_folded(s, &list[k]) || has_prefix_folded(t, &list[k]) {
            proof {
                lemma_first_index_is(texts(list@).len(), f, k as int);
            }
            return Some(k);
        }
        k += 1;
    }
    proof {
        lemma_first_index_none(texts(list@).len(), f);
    }
    None
}

/// The index of the first entry of `list` with which `s` or `t` ends, ASCII case ignored.
pub fn first_suffix(s: &Vec<char>, t: &Vec<char>, list: &Vec<Vec<char>>) -> (r: Option<usize>)
    ensures
        match first_index(texts(list@).len(), ends_in_either(s@, t@, texts(list@))) {
            Some(i) => r == Some(i as usize),
            None => r is None,
        },
{
    let ghost f = ends_in_either(s@, t@, texts(list@));
    let mut k: usize = 0;
    while k < list.len()
        invariant
            k <= list@.len(),
            f == ends_in_either(s@, t@, texts(list@)),
            forall|j: int| 0 <= j < k ==> !#[trigger] f(j),
        decreases list@.len() - k,
    {
        assert(texts(list@)[k as int] == list@[k as int]@);
        if has_suffix_folded(s, &list[k]) || has_suffix_folded(t, &list[k]) {
            proof {
                lemma_first_index_is(texts(list@).len(), f, k as int);
            }
            return Some(k);
        }
        k += 1;
    }
    proof {
        lemma_first_index_none(texts(list@).len(), f);
    }
    None
}

/// Whether `s` begins with some entry of `list`, ASCII case ignored.
pub fn begins_with_listed(s: &Vec<char>, list: &Vec<Vec<char>>) -> (r: bool)
    ensures
        r == begins_with_any(s@, texts(list@)),
{
    let mut k: usize = 0;
    while k < list.len()
        invariant
            k <= list@.len(),
            forall|j: int| 0 <= j < k ==> !begins_with_entry(s@, texts(list@), j),
        decreases list@.len() - k,
    {
        assert(texts(list@)[k as int] == list@[k as int]@);
        if has_prefix_folded(s, &list[k]) {
            assert(begins_with_entry(s@, texts(list@), k as int));
            return true;
        }
        k += 1;
    }
    false
}

/// Whether `p` is `root` or lies beneath it.
pub fn is_within(p: &Vec<char>, root: &Vec<char>) -> (r: bool)
    ensures
        r == lies_within(p@, root@),
{
    if !matches_at(p, root, 0) {
        return false;
    }
    if p.len() == root.len() {
        return true;
    }
    if root.len() > 0 && separates(root[root.len() - 1]) {
        return true;
    }
    separates(p[root.len()])
}

/// The form of a path that rule four compares.
pub fn resolved_string(p: &PathProbe) -> (s: String)
    ensures
        s@ == resolved(*p),
{
    match &p.canonical {
        Some(c) => c.clone(),
        None => p.path.clone(),
    }
}

/// Whether a name is that of a program file.
pub fn names_program_file(name: &str) -> (r: bool)
    ensures
        r == is_program_file(name@),
{
    let n = chars_of(name);
    let exe = chars_of(".exe");
    let dll = chars_of(".dll");
    has_suffix(&n, &exe) || has_suffix(&n, &dll)
}

/// Whether one of the names is that of a program file.
pub fn lists_program_file(names: &Vec<String>) -> (r: bool)
    ensures
        r == holds_program_file(names@),
{
    let mut i: usize = 0;
    while i < names.len()
        invariant
            i <= names@.len(),
            forall|j: int| 0 <= j < i ==> !is_program_file(#[trigger] names@[j]@),
        decreases names@.len() - i,
    {
        if names_program_file(names[i].as_str()) {
            assert(is_program_file(names@[i as int]@));
            return true;
        }
        i += 1;
    }
    false
}

/// Whether the path is a directory in which a program is installed.
pub fn holds_program(p: &PathProbe) -> (r: bool)
    ensures
        r == is_program_directory(*p),
{
    let path = chars_of(p.path.as_str());
    let roots = program_root_list();
    if !begins_with_listed(&path, &roots) {
        return false;
    }
    match &p.entry_names {
        None => false,
        Some(names) => lists_program_file(names),
    }
}

/// The first of the rules on the text of the paths that the pair breaks.
pub fn check_text(source: &str, target: &str, windows: bool) -> (v: Option<Violation>)
    ensures
        v == textual_violation(source@, target@, windows),
{
    let s = chars_of(source);
    let t = chars_of(target);
    if s.len() == 0 || t.len() == 0 {
        return Some(Violation::EmptyPath);
    }
    let dots = chars_of("..");
    if segment_matches(&s, &dots) || segment_matches(&t, &dots) {
        return Some(Violation::ParentReference);
    }
    if let Some(i) = first_illegal(&s, &t, windows) {
        return Some(Violation::IllegalCharacter(i));
    }
    if let Some(i) = first_reserved(&s, &t) {
        return Some(Violation::ReservedName(i));
    }
    if s.len() > MAX_PATH_CHARS || t.len() > MAX_PATH_CHARS {
        return Some(Violation::TooLong);
    }
    None
}

/// The rule on where the paths lie that the pair breaks.
pub fn check_location(source: &str, target: &str) -> (v: Option<Violation>)
    ensures
        v == location_violation(source@, target@),
{
    let rs = chars_of(source);
    let rt = chars_of(target);
    proof {
        if rs@.len() == rt@.len() {
            assert(rs@.subrange(0, rs@.len() as int) =~= rs@);
        }
    }
    if rs.len() == rt.len() && matches_at(&rs, &rt, 0) {
        return Some(Violation::SameLocation);
    }
    if is_within(&rt, &rs) {
        return Some(Violation::IntoOwnSubtree);
    }
    None
}

/// The first of the rules that protect the system that the pair breaks.
pub fn check_protection(source: &PathProbe, target: &PathProbe) -> (v: Option<Violation>)
    ensures
        v == protection_violation(*source, *target),
{
    let s = chars_of(source.path.as_str());
    let t = chars_of(target.path.as_str());
    let blocked = blocklist_entries();
    if let Some(i) = first_prefix(&s, &t, &blocked) {
        return Some(Violation::Protected(i));
    }
    let files = system_file_list();
    if let Some(i) = first_suffix(&s, &t, &files) {
        return Some(Violation::SystemFile(i));
    }
    if holds_program(source) || holds_program(target) {
        return Some(Violation::ProgramDirectory);
    }
    None
}

/// Judges a pair of paths: the first rule that it breaks, or `None` where
/// the pair is safe to migrate. The verdict is a function of the two probes
/// and the platform alone: the same probes always get the same verdict.
pub fn validate(source: &PathProbe, target: &PathProbe, windows: bool) -> (v: Option<Violation>)
    ensures
        v == first_violation(*source, *target, windows),
{
    if let Some(v) = check_text(source.path.as_str(), target.path.as_str(), windows) {
        return Some(v);
    }
    let rs = resolved_string(source);
    let rt = resolved_string(target);
    if let Some(v) = check_location(rs.as_str(), rt.as_str()) {
        return Some(v);
    }
    check_protection(source, target)
}

/// The text that tells the user which rule was broken.
pub open spec fn violation_text(v: Violation) -> Seq<char> {
    match v {
        Violation::EmptyPath => "路径不能为空"@,
        Violation::ParentReference => "路径包含非法的父目录引用"@,
        Violation::IllegalCharacter(i) => if i < illegal_chars().len() {
            "路径包含非法字符: "@.push(illegal_chars()[i as int])
        } else {
            "路径包含非法字符: "@
        },
        Violation::ReservedName(i) => if i < reserved_names().len() {
            "路径使用了Windows保留名称: "@ + reserved_names()[i as int]
        } else {
            "路径使用了Windows保留名称: "@
        },
        Violation::TooLong => "路径过长（超过260字符）"@,
        Violation::SameLocation => "源路径和目标路径指向同一位置"@,
        Violation::IntoOwnSubtree => "不能将目录迁移到其子目录中"@,
        Violation::Protected(i) => if i < blocklist().len() {
            "不能操作系统保护目录: "@ + blocklist()[i as int]
        } else {
            "不能操作系统保护目录: "@
        },
        Violation::SystemFile(i) => if i < system_files().len() {
            "不能操作系统文件: "@ + system_files()[i as int]
        } else {
            "不能操作系统文件: "@
        },
        Violation::ProgramDirectory => "不能迁移程序安装目录，可能导致程序无法运行"@,
    }
}

/// `head` followed by entry `i` of `list`, where there is one.
fn with_entry(head: &str, list: &Vec<Vec<char>>, i: usize) -> (s: String)
    ensures
        s@ == (if i < list@.len() {
            head@ + texts(list@)[i as int]
        } else {
            head@
        }),
{
    let mut out = chars_of(head);
    if i < list.len() {
        crate::text::push_all(&mut out, &list[i]);
    }
    crate::text::string_of(&out)
}

/// Tells the user which rule was broken.
pub fn describe(v: Violation) -> (s: String)
    ensures
        s@ == violation_text(v),
{
    match v {
        Violation::EmptyPath => String::from_str("路径不能为空"),
        Violation::ParentReference => String::from_str("路径包含非法的父目录引用"),
        Violation::IllegalCharacter(i) => {
            let list = illegal_char_list();
            let mut out = String::from_str("路径包含非法字符: ");
            if i < list.len() {
                out.push(list[i]);
            }
            out
        },
        Violation::ReservedName(i) => with_entry("路径使用了Windows保留名称: ", &reserved_name_list(), i),
        Violation::TooLong => String::from_str("路径过长（超过260字符）"),
        Violation::SameLocation => String::from_str("源路径和目标路径指向同一位置"),
        Violation::IntoOwnSubtree => String::from_str("不能将目录迁移到其子目录中"),
        Violation::Protected(i) => with_entry("不能操作系统保护目录: ", &blocklist_entries(), i),
        Violation::SystemFile(i) => with_entry("不能操作系统文件: ", &system_file_list(), i),
        Violation::ProgramDirectory => String::from_str("不能迁移程序安装目录，可能导致程序无法运行"),
    }
}

} // verus!
