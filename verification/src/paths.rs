//! A model of Unix paths held as strings, with the operations of `std::path`
//! that the tool relies on: joining, splitting into components, comparing by
//! components, the file stem and the parent.

use vstd::prelude::*;
use vstd::string::*;

use crate::seq_facts::lemma_filter_push;

verus! {

/// The views of a sequence of strings.
pub open spec fn strings_view(v: Seq<String>) -> Seq<Seq<char>> {
    v.map_values(|x: String| x@)
}

/// The view of an optional string.
pub open spec fn opt_string_view(o: Option<String>) -> Option<Seq<char>> {
    match o {
        Some(x) => Some(x@),
        None => None,
    }
}

/// `PathBuf::push` on Unix: an absolute `rel` replaces `base`; otherwise a
/// separator is inserted when `base` is non-empty and does not end with one.
pub open spec fn spec_path_join(base: Seq<char>, rel: Seq<char>) -> Seq<char> {
    if rel.len() > 0 && rel[0] == '/' {
        rel
    } else if base.len() > 0 && base.last() != '/' {
        base + seq!['/'] + rel
    } else {
        base + rel
    }
}

/// The pieces of `s` between separators, empty ones included.
pub open spec fn split_slash(s: Seq<char>) -> Seq<Seq<char>>
    decreases s.len(),
{
    if s.len() == 0 {
        seq![Seq::empty()]
    } else {
        let rest = split_slash(s.drop_last());
        if s.last() == '/' {
            rest.push(Seq::empty())
        } else {
            rest.update(rest.len() - 1, rest.last().push(s.last()))
        }
    }
}

/// A piece that names a component: neither empty nor `.`.
pub open spec fn meaningful(p: Seq<char>) -> bool {
    p.len() > 0 && p != seq!['.']
}

/// The pieces of `s` that name normal or parent components, in order.
pub open spec fn spec_component_pieces(s: Seq<char>) -> Seq<Seq<char>> {
    split_slash(s).filter(|p: Seq<char>| meaningful(p))
}

pub open spec fn has_root(s: Seq<char>) -> bool {
    s.len() > 0 && s[0] == '/'
}

/// A relative path that starts with the component `.`.
pub open spec fn has_cur_dir_prefix(s: Seq<char>) -> bool {
    s.len() > 0 && s[0] == '.' && (s.len() == 1 || s[1] == '/')
}

/// The components of `s` as `Path::components` yields them, each by its
/// string form: `/` for the root, `.` for a leading current directory, then
/// the normal and `..` pieces. (Neither `/` nor `.` can be a normal piece, so
/// this form determines the components.)
pub open spec fn spec_component_strs(s: Seq<char>) -> Seq<Seq<char>> {
    let lead: Seq<Seq<char>> = if has_root(s) {
        seq![seq!['/']]
    } else if has_cur_dir_prefix(s) {
        seq![seq!['.']]
    } else {
        Seq::empty()
    };
    lead + spec_component_pieces(s)
}

/// Path equality as `Path`'s `==` defines it: by components.
pub open spec fn spec_path_eq(a: Seq<char>, b: Seq<char>) -> bool {
    spec_component_strs(a) == spec_component_strs(b)
}

/// The last index at or above `lo` that holds `c`, or -1.
pub open spec fn spec_rfind(s: Seq<char>, c: char, lo: int) -> int
    decreases s.len(),
{
    if s.len() == 0 || s.len() <= lo {
        -1
    } else if s.last() == c {
        s.len() - 1
    } else {
        spec_rfind(s.drop_last(), c, lo)
    }
}

/// `Path::file_name`: the last component, when it is a normal one.
pub open spec fn spec_file_name(s: Seq<char>) -> Option<Seq<char>> {
    let p = spec_component_pieces(s);
    if p.len() > 0 && p.last() != seq!['.', '.'] {
        Some(p.last())
    } else {
        None
    }
}

/// The stem of a file name: the part before the last `.`, unless that dot
/// is the first character or there is none, when the whole name is the stem.
pub open spec fn spec_stem_of_name(name: Seq<char>) -> Seq<char> {
    let k = spec_rfind(name, '.', 0);
    if k <= 0 {
        name
    } else {
        name.take(k)
    }
}

/// `Path::file_stem`.
pub open spec fn spec_file_stem(s: Seq<char>) -> Option<Seq<char>> {
    match spec_file_name(s) {
        Some(name) => Some(spec_stem_of_name(name)),
        None => None,
    }
}

/// The extension of a file name: the part after the last `.`, unless that
/// dot is the first character or there is none, when there is no extension.
pub open spec fn spec_extension_of_name(name: Seq<char>) -> Option<Seq<char>> {
    let k = spec_rfind(name, '.', 0);
    if k <= 0 {
        None
    } else {
        Some(name.skip(k + 1))
    }
}

/// `Path::extension`.
pub open spec fn spec_extension(s: Seq<char>) -> Option<Seq<char>> {
    match spec_file_name(s) {
        Some(name) => spec_extension_of_name(name),
        None => None,
    }
}

/// Whether `s` names a Dart source file: its extension is `dart`.
pub open spec fn spec_is_dart_file(s: Seq<char>) -> bool {
    spec_extension(s) == Some(seq!['d', 'a', 'r', 't'])
}

/// Pieces joined by separators, as collecting components into a `PathBuf`
/// renders them.
pub open spec fn spec_join_slash(pieces: Seq<Seq<char>>) -> Seq<char>
    decreases pieces.len(),
{
    if pieces.len() == 0 {
        Seq::empty()
    } else if pieces.len() == 1 {
        pieces[0]
    } else {
        spec_join_slash(pieces.drop_last()) + seq!['/'] + pieces.last()
    }
}

/// `path.components().skip(1).collect::<PathBuf>()`.
pub open spec fn spec_without_first_component(s: Seq<char>) -> Seq<char> {
    let c = spec_component_strs(s);
    if c.len() == 0 {
        Seq::empty()
    } else {
        spec_join_slash(c.skip(1))
    }
}

/// The length of the part of `s` before its body: one for a root or a
/// leading `.` component, else zero.
pub open spec fn pre_len(s: Seq<char>) -> int {
    if has_root(s) || has_cur_dir_prefix(s) {
        1
    } else {
        0
    }
}

/// Where the last piece of the body of `s` starts.
pub open spec fn last_piece_start(s: Seq<char>) -> int {
    let k = spec_rfind(s, '/', pre_len(s));
    if k < 0 {
        pre_len(s)
    } else {
        k + 1
    }
}

/// The length of `s` once its last piece and the separator before it are
/// removed.
pub open spec fn last_piece_cut(s: Seq<char>) -> int {
    let k = spec_rfind(s, '/', pre_len(s));
    if k < 0 {
        pre_len(s)
    } else {
        k
    }
}

pub proof fn lemma_rfind(s: Seq<char>, c: char, lo: int)
    requires
        lo >= 0,
    ensures
        spec_rfind(s, c, lo) == -1 || (lo <= spec_rfind(s, c, lo) < s.len() && s[spec_rfind(
            s,
            c,
            lo,
        )] == c),
        forall|j: int|
            lo <= j < s.len() && j > spec_rfind(s, c, lo) ==> #[trigger] s[j] != c,
    decreases s.len(),
{
    if s.len() == 0 || s.len() <= lo {
    } else if s.last() == c {
    } else {
        lemma_rfind(s.drop_last(), c, lo);
        assert forall|j: int| 0 <= j < s.len() - 1 implies s.drop_last()[j] == s[j] by {}
    }
}

/// Removes trailing empty and `.` pieces, as `Components::as_path` does.
pub open spec fn spec_trim_right(s: Seq<char>) -> Seq<char>
    decreases s.len(),
{
    if s.len() <= pre_len(s) {
        s
    } else {
        let p = s.subrange(last_piece_start(s), s.len() as int);
        if p.len() == 0 || p == seq!['.'] {
            proof {
                lemma_rfind(s, '/', pre_len(s));
            }
            spec_trim_right(s.take(last_piece_cut(s)))
        } else {
            s
        }
    }
}

/// `Path::parent` on Unix.
pub open spec fn spec_path_parent(s: Seq<char>) -> Option<Seq<char>> {
    let q = spec_trim_right(s);
    if q.len() == 0 {
        None
    } else if q.len() <= pre_len(q) {
        if has_root(q) {
            None
        } else {
            Some(Seq::empty())
        }
    } else {
        Some(spec_trim_right(q.take(last_piece_cut(q))))
    }
}

/// A copy of a vector of strings.
pub fn clone_strings(v: &Vec<String>) -> (r: Vec<String>)
    ensures
        strings_view(r@) == strings_view(v@),
{
    let mut r: Vec<String> = Vec::new();
    let mut i: usize = 0;
    while i < v.len()
        invariant
            i <= v@.len(),
            strings_view(r@) == strings_view(v@).take(i as int),
        decreases v@.len() - i,
    {
        let ghost before = strings_view(r@);
        r.push(v[i].clone());
        assert(strings_view(r@) =~= before.push(v@[i as int]@));
        assert(strings_view(v@).take(i + 1) =~= strings_view(v@).take(i as int).push(
            v@[i as int]@,
        ));
        i += 1;
    }
    assert(strings_view(v@).take(i as int) =~= strings_view(v@));
    r
}

/// Whether two strings hold the same characters.
pub fn str_equal(a: &str, b: &str) -> (r: bool)
    ensures
        r == (a@ == b@),
{
    let n = a.unicode_len();
    if n != b.unicode_len() {
        return false;
    }
    let mut i: usize = 0;
    while i < n
        invariant
            n == a@.len() == b@.len(),
            i <= n,
            forall|j: int| 0 <= j < i ==> a@[j] == b@[j],
        decreases n - i,
    {
        if a.get_char(i) != b.get_char(i) {
            return false;
        }
        i += 1;
    }
    assert(a@ =~= b@);
    true
}

/// Joins `rel` onto `base` as `Path::join` does on Unix.
pub fn path_join(base: &str, rel: &str) -> (r: String)
    ensures
        r@ == spec_path_join(base@, rel@),
{
    let rel_len = rel.unicode_len();
    if rel_len > 0 && rel.get_char(0) == '/' {
        return rel.to_owned();
    }
    let base_len = base.unicode_len();
    let mut r = base.to_owned();
    if base_len > 0 && base.get_char(base_len - 1) != '/' {
        let sep = "/";
        proof {
            reveal_strlit("/");
        }
        r.append(sep);
    }
    r.append(rel);
    r
}

/// The characters of `s`.
pub fn chars_of(s: &str) -> (v: Vec<char>)
    ensures
        v@ == s@,
{
    let n = s.unicode_len();
    let mut v: Vec<char> = Vec::new();
    let mut i: usize = 0;
    while i < n
        invariant
            n == s@.len(),
            i <= n,
            v@ == s@.take(i as int),
        decreases n - i,
    {
        v.push(s.get_char(i));
        i += 1;
        assert(v@ =~= s@.take(i as int));
    }
    assert(v@ =~= s@);
    v
}

proof fn lemma_split_slash_len(s: Seq<char>)
    ensures
        split_slash(s).len() >= 1,
    decreases s.len(),
{
    if s.len() > 0 {
        lemma_split_slash_len(s.drop_last());
    }
}


fn is_meaningful(p: &str) -> (b: bool)
    ensures
        b == meaningful(p@),
{
    let n = p.unicode_len();
    if n == 0 {
        false
    } else if n == 1 && p.get_char(0) == '.' {
        assert(p@ =~= seq!['.']);
        false
    } else {
        assert(p@.len() == 1 ==> p@[0] != '.');
        true
    }
}

/// The pieces of `s` that name normal or parent components.
pub fn path_component_pieces(s: &str) -> (r: Vec<String>)
    ensures
        strings_view(r@) == spec_component_pieces(s@),
{
    let chars = chars_of(s);
    let n = chars.len();
    let mut r: Vec<String> = Vec::new();
    let mut start: usize = 0;
    let ghost mut done: Seq<Seq<char>> = Seq::empty();
    let mut i: usize = 0;
    assert(s@.take(0) =~= Seq::<char>::empty());
    assert(s@.subrange(0, 0) =~= Seq::<char>::empty());
    assert(strings_view(r@) =~= done.filter(|p: Seq<char>| meaningful(p)));
    while i < n
        invariant
            n == chars@.len(),
            chars@ == s@,
            start <= i <= n,
            split_slash(s@.take(i as int)) == done.push(s@.subrange(start as int, i as int)),
            strings_view(r@) == done.filter(|p: Seq<char>| meaningful(p)),
        decreases n - i,
    {
        let ghost prev = s@.take(i as int);
        assert(s@.take(i + 1).drop_last() =~= prev);
        assert(s@.take(i + 1).last() == s@[i as int]);
        if chars[i] == '/' {
            let piece = s.substring_char(start, i);
            proof {
                lemma_filter_push(done, |p: Seq<char>| meaningful(p), piece@);
            }
            let m = is_meaningful(piece);
            if m {
                r.push(piece.to_owned());
            }
            proof {
                done = done.push(piece@);
                assert(strings_view(r@) =~= done.filter(|p: Seq<char>| meaningful(p)));
                assert(s@.subrange((i + 1) as int, (i + 1) as int) =~= Seq::<char>::empty());
            }
            start = i + 1;
        } else {
            proof {
                lemma_split_slash_len(prev);
                assert(s@.subrange(start as int, i + 1) =~= s@.subrange(
                    start as int,
                    i as int,
                ).push(s@[i as int]));
            }
        }
        i += 1;
    }
    let piece = s.substring_char(start, n);
    proof {
        assert(s@.take(n as int) =~= s@);
        lemma_filter_push(done, |p: Seq<char>| meaningful(p), piece@);
    }
    if is_meaningful(piece) {
        r.push(piece.to_owned());
    }
    proof {
        assert(strings_view(r@) =~= split_slash(s@).filter(|p: Seq<char>| meaningful(p)));
    }
    r
}

/// The components of `s`, each by its string form (see `spec_component_strs`).
pub fn path_component_strs(s: &str) -> (r: Vec<String>)
    ensures
        strings_view(r@) == spec_component_strs(s@),
{
    let n = s.unicode_len();
    let pieces = path_component_pieces(s);
    let mut r: Vec<String> = Vec::new();
    if n > 0 && s.get_char(0) == '/' {
        let root = "/";
        proof {
            reveal_strlit("/");
        }
        r.push(root.to_owned());
        assert(root@ =~= seq!['/']);
    } else if n > 0 && s.get_char(0) == '.' && (n == 1 || s.get_char(1) == '/') {
        let cur = ".";
        proof {
            reveal_strlit(".");
        }
        r.push(cur.to_owned());
        assert(cur@ =~= seq!['.']);
    }
    let ghost lead = strings_view(r@);
    assert(lead + spec_component_pieces(s@) =~= spec_component_strs(s@));
    assert(spec_component_pieces(s@).take(0) =~= Seq::<Seq<char>>::empty());
    assert(strings_view(r@) =~= lead + spec_component_pieces(s@).take(0));
    let mut i: usize = 0;
    while i < pieces.len()
        invariant
            0 <= i <= pieces@.len(),
            strings_view(pieces@) == spec_component_pieces(s@),
            lead + spec_component_pieces(s@) == spec_component_strs(s@),
            strings_view(r@) == lead + spec_component_pieces(s@).take(i as int),
        decreases pieces@.len() - i,
    {
        let ghost old_r = strings_view(r@);
        assert(pieces@[i as int]@ == spec_component_pieces(s@)[i as int]);
        r.push(pieces[i].clone());
        assert(strings_view(r@) =~= old_r.push(spec_component_pieces(s@)[i as int]));
        assert(spec_component_pieces(s@).take(i + 1) =~= spec_component_pieces(s@).take(
            i as int,
        ).push(spec_component_pieces(s@)[i as int]));
        i += 1;
        assert(strings_view(r@) =~= lead + spec_component_pieces(s@).take(i as int));
    }
    assert(spec_component_pieces(s@).take(i as int) =~= spec_component_pieces(s@));
    r
}


/// Whether `a` and `b` name the same path, compared by components.
pub fn path_eq(a: &str, b: &str) -> (r: bool)
    ensures
        r == spec_path_eq(a@, b@),
{
    let ca = path_component_strs(a);
    let cb = path_component_strs(b);
    if ca.len() != cb.len() {
        assert(strings_view(ca@).len() != strings_view(cb@).len());
        return false;
    }
    let mut i: usize = 0;
    while i < ca.len()
        invariant
            ca@.len() == cb@.len(),
            strings_view(ca@) == spec_component_strs(a@),
            strings_view(cb@) == spec_component_strs(b@),
            0 <= i <= ca@.len(),
            forall|j: int| 0 <= j < i ==> #[trigger] ca@[j]@ == cb@[j]@,
        decreases ca@.len() - i,
    {
        if !(ca[i] == cb[i]) {
            assert(strings_view(ca@)[i as int] != strings_view(cb@)[i as int]);
            return false;
        }
        i += 1;
    }
    assert(strings_view(ca@) =~= strings_view(cb@));
    true
}

/// The last index below `len` and at or above `lo` where `v` holds `c`.
fn rfind_char(v: &Vec<char>, len: usize, c: char, lo: usize) -> (k: Option<usize>)
    requires
        len <= v@.len(),
    ensures
        match k {
            Some(k) => spec_rfind(v@.take(len as int), c, lo as int) == k as int,
            None => spec_rfind(v@.take(len as int), c, lo as int) == -1,
        },
{
    if len <= lo {
        return None;
    }
    let mut j: usize = len;
    while j > lo
        invariant
            lo <= j <= len <= v@.len(),
            spec_rfind(v@.take(len as int), c, lo as int) == spec_rfind(
                v@.take(j as int),
                c,
                lo as int,
            ),
        decreases j,
    {
        assert(v@.take(j as int).drop_last() =~= v@.take(j - 1));
        assert(v@.take(j as int).last() == v@[j - 1]);
        if v[j - 1] == c {
            return Some(j - 1);
        }
        j -= 1;
    }
    None
}

/// The stem of a file name (see `spec_stem_of_name`).
fn stem_of_name(name: &str) -> (r: String)
    ensures
        r@ == spec_stem_of_name(name@),
{
    let chars = chars_of(name);
    let n = chars.len();
    assert(chars@.take(n as int) =~= name@);
    proof {
        lemma_rfind(name@, '.', 0);
    }
    match rfind_char(&chars, n, '.', 0) {
        None => name.to_owned(),
        Some(k) => {
            if k == 0 {
                name.to_owned()
            } else {
                let r = name.substring_char(0, k).to_owned();
                assert(r@ =~= name@.take(k as int));
                r
            }
        },
    }
}

fn is_dot_dot(p: &str) -> (b: bool)
    ensures
        b == (p@ == seq!['.', '.']),
{
    let n = p.unicode_len();
    if n == 2 && p.get_char(0) == '.' && p.get_char(1) == '.' {
        assert(p@ =~= seq!['.', '.']);
        true
    } else {
        false
    }
}

/// The extension of a file name (see `spec_extension_of_name`).
fn extension_of_name(name: &str) -> (r: Option<String>)
    ensures
        opt_string_view(r) == spec_extension_of_name(name@),
{
    let chars = chars_of(name);
    let n = chars.len();
    assert(chars@.take(n as int) =~= name@);
    proof {
        lemma_rfind(name@, '.', 0);
    }
    match rfind_char(&chars, n, '.', 0) {
        None => None,
        Some(k) => {
            if k == 0 {
                None
            } else {
                let r = name.substring_char(k + 1, n).to_owned();
                assert(r@ =~= name@.skip(k + 1));
                Some(r)
            }
        },
    }
}

/// The extension of the file that `s` names, as `Path::extension` gives it.
pub fn path_extension(s: &str) -> (r: Option<String>)
    ensures
        opt_string_view(r) == spec_extension(s@),
{
    let pieces = path_component_pieces(s);
    let n = pieces.len();
    if n == 0 {
        return None;
    }
    let last = &pieces[n - 1];
    assert(last@ == spec_component_pieces(s@).last());
    if is_dot_dot(last.as_str()) {
        return None;
    }
    extension_of_name(last.as_str())
}

/// Whether `path` names a Dart source file: its extension is `dart`.
pub fn is_dart_file(path: &str) -> (b: bool)
    ensures
        b == spec_is_dart_file(path@),
{
    let dart = "dart";
    proof {
        reveal_strlit("dart");
        assert(dart@ =~= seq!['d', 'a', 'r', 't']);
    }
    match path_extension(path) {
        Some(ext) => str_equal(ext.as_str(), dart),
        None => false,
    }
}

/// The stem of the file that `s` names, as `Path::file_stem` gives it.
pub fn path_file_stem(s: &str) -> (r: Option<String>)
    ensures
        opt_string_view(r) == spec_file_stem(s@),
{
    let pieces = path_component_pieces(s);
    let n = pieces.len();
    if n == 0 {
        return None;
    }
    let last = &pieces[n - 1];
    assert(last@ == spec_component_pieces(s@).last());
    if is_dot_dot(last.as_str()) {
        return None;
    }
    Some(stem_of_name(last.as_str()))
}

proof fn lemma_join_slash_push(p: Seq<Seq<char>>, x: Seq<char>)
    ensures
        spec_join_slash(p.push(x)) == if p.len() == 0 {
            x
        } else {
            spec_join_slash(p) + seq!['/'] + x
        },
{
    assert(p.push(x).drop_last() =~= p);
    if p.len() == 0 {
        assert(p.push(x)[0] == x);
    }
}

/// `path.components().skip(1).collect::<PathBuf>()`, rendered as a string.
pub fn path_without_first_component(s: &str) -> (r: String)
    ensures
        r@ == spec_without_first_component(s@),
{
    let comps = path_component_strs(s);
    if comps.len() == 0 {
        return String::new();
    }
    join_components_from(&comps, 1)
}

/// The components of `comps` from `start` on, joined by separators.
fn join_components_from(comps: &Vec<String>, start: usize) -> (r: String)
    requires
        start <= comps@.len(),
    ensures
        r@ == spec_join_slash(strings_view(comps@).skip(start as int)),
{
    let ghost cv = strings_view(comps@);
    let mut r = String::new();
    let mut i: usize = start;
    assert(cv.subrange(start as int, start as int) =~= Seq::<Seq<char>>::empty());
    while i < comps.len()
        invariant
            cv == strings_view(comps@),
            start <= i <= comps@.len(),
            r@ == spec_join_slash(cv.subrange(start as int, i as int)),
        decreases comps@.len() - i,
    {
        proof {
            lemma_join_slash_push(cv.subrange(start as int, i as int), cv[i as int]);
            assert(cv.subrange(start as int, i + 1) =~= cv.subrange(start as int, i as int).push(
                cv[i as int],
            ));
        }
        if i > start {
            let sep = "/";
            proof {
                reveal_strlit("/");
                assert(sep@ =~= seq!['/']);
            }
            r.append(sep);
        }
        r.append(comps[i].as_str());
        i += 1;
    }
    assert(cv.subrange(start as int, i as int) =~= cv.skip(start as int));
    r
}

/// `Path::strip_prefix`, compared by components: when the components of
/// `base` begin those of `s`, the path of the remaining ones (`s` itself when
/// `base` has none, else the remaining components joined by separators).
pub open spec fn spec_strip_prefix(s: Seq<char>, base: Seq<char>) -> Option<Seq<char>> {
    let cs = spec_component_strs(s);
    let cb = spec_component_strs(base);
    if cb.len() <= cs.len() && cs.take(cb.len() as int) == cb {
        if cb.len() == 0 {
            Some(s)
        } else {
            Some(spec_join_slash(cs.skip(cb.len() as int)))
        }
    } else {
        None
    }
}

/// The path of `s` relative to `base`, when `base` is a prefix of `s` by
/// components (see `spec_strip_prefix`).
pub fn path_strip_prefix(s: &str, base: &str) -> (r: Option<String>)
    ensures
        opt_string_view(r) == spec_strip_prefix(s@, base@),
{
    let cs = path_component_strs(s);
    let cb = path_component_strs(base);
    let ghost csv = strings_view(cs@);
    let ghost cbv = strings_view(cb@);
    if cb.len() > cs.len() {
        return None;
    }
    let mut i: usize = 0;
    while i < cb.len()
        invariant
            csv == strings_view(cs@),
            cbv == strings_view(cb@),
            csv == spec_component_strs(s@),
            cbv == spec_component_strs(base@),
            cb@.len() <= cs@.len(),
            i <= cb@.len(),
            forall|j: int| 0 <= j < i ==> csv[j] == cbv[j],
        decreases cb@.len() - i,
    {
        if !str_equal(cs[i].as_str(), cb[i].as_str()) {
            assert(csv.take(cbv.len() as int)[i as int] != cbv[i as int]);
            assert(csv.take(cbv.len() as int) != cbv);
            return None;
        }
        i += 1;
    }
    assert(csv.take(cbv.len() as int) =~= cbv);
    if cb.len() == 0 {
        return Some(s.to_owned());
    }
    Some(join_components_from(&cs, cb.len()))
}

/// `pre_len` of the first `m` characters of `v`.
fn pre_len_of(v: &Vec<char>, m: usize) -> (r: usize)
    requires
        m <= v@.len(),
    ensures
        r as int == pre_len(v@.take(m as int)),
{
    if m > 0 && (v[0] == '/' || (v[0] == '.' && (m == 1 || v[1] == '/'))) {
        1
    } else {
        0
    }
}

/// The length of `spec_trim_right` of the first `len` characters of `v`,
/// which is a prefix of them.
fn trim_right_len(v: &Vec<char>, len: usize) -> (r: usize)
    requires
        len <= v@.len(),
    ensures
        r <= len,
        v@.take(r as int) == spec_trim_right(v@.take(len as int)),
{
    let mut m = len;
    loop
        invariant
            m <= len <= v@.len(),
            spec_trim_right(v@.take(m as int)) == spec_trim_right(v@.take(len as int)),
        decreases m,
    {
        let ghost t = v@.take(m as int);
        let pre = pre_len_of(v, m);
        if m <= pre {
            return m;
        }
        let k = rfind_char(v, m, '/', pre);
        proof {
            lemma_rfind(t, '/', pre as int);
        }
        let (start, cut) = match k {
            Some(k) => (k + 1, k),
            None => (pre, pre),
        };
        assert(start as int == last_piece_start(t));
        assert(cut as int == last_piece_cut(t));
        assert(t.subrange(start as int, m as int) =~= v@.subrange(start as int, m as int));
        let piece_len = m - start;
        if piece_len == 0 || (piece_len == 1 && v[start] == '.') {
            proof {
                if piece_len == 1 {
                    assert(t.subrange(start as int, m as int) =~= seq!['.']);
                }
                assert(t.take(cut as int) =~= v@.take(cut as int));
            }
            m = cut;
        } else {
            proof {
                if piece_len == 1 {
                    assert(t.subrange(start as int, m as int)[0] != '.');
                }
            }
            return m;
        }
    }
}

/// The parent of `s`, as `Path::parent` gives it on Unix.
pub fn path_parent(s: &str) -> (r: Option<String>)
    ensures
        opt_string_view(r) == spec_path_parent(s@),
{
    let v = chars_of(s);
    let n = v.len();
    assert(v@.take(n as int) =~= s@);
    let q = trim_right_len(&v, n);
    let ghost qs = v@.take(q as int);
    if q == 0 {
        return None;
    }
    let pre = pre_len_of(&v, q);
    if q <= pre {
        if v[0] == '/' {
            return None;
        } else {
            return Some(String::new());
        }
    }
    let k = rfind_char(&v, q, '/', pre);
    proof {
        lemma_rfind(qs, '/', pre as int);
    }
    let cut = match k {
        Some(k) => k,
        None => pre,
    };
    assert(cut as int == last_piece_cut(qs));
    assert(qs.take(cut as int) =~= v@.take(cut as int));
    let r = trim_right_len(&v, cut);
    let out = s.substring_char(0, r).to_owned();
    assert(out@ =~= v@.take(r as int));
    Some(out)
}


proof fn lemma_rfind_is(s: Seq<char>, c: char, lo: int, i: int)
    requires
        0 <= lo <= i < s.len(),
        s[i] == c,
        forall|j: int| i < j < s.len() ==> s[j] != c,
    ensures
        spec_rfind(s, c, lo) == i,
{
    lemma_rfind(s, c, lo);
}

proof fn lemma_rfind_none(s: Seq<char>, c: char, lo: int)
    requires
        lo >= 0,
        forall|j: int| lo <= j < s.len() ==> s[j] != c,
    ensures
        spec_rfind(s, c, lo) == -1,
{
    lemma_rfind(s, c, lo);
}

/// `spec_trim_right` keeps a prefix.
pub proof fn lemma_trim_right_prefix(s: Seq<char>)
    ensures
        spec_trim_right(s).len() <= s.len(),
        spec_trim_right(s) == s.take(spec_trim_right(s).len() as int),
    decreases s.len(),
{
    if s.len() <= pre_len(s) {
        assert(s.take(s.len() as int) =~= s);
    } else {
        let p = s.subrange(last_piece_start(s), s.len() as int);
        lemma_rfind(s, '/', pre_len(s));
        if p.len() == 0 || p == seq!['.'] {
            let t = s.take(last_piece_cut(s));
            lemma_trim_right_prefix(t);
            assert(spec_trim_right(s) =~= s.take(spec_trim_right(s).len() as int));
        } else {
            assert(s.take(s.len() as int) =~= s);
        }
    }
}

/// A parent is a strictly shorter prefix of the path.
pub proof fn lemma_parent_shorter(s: Seq<char>)
    ensures
        spec_path_parent(s) matches Some(p) ==> p.len() < s.len() && p == s.take(
            p.len() as int,
        ),
{
    let q = spec_trim_right(s);
    lemma_trim_right_prefix(s);
    if q.len() == 0 {
    } else if q.len() <= pre_len(q) {
        assert(s.take(0) =~= Seq::<char>::empty());
    } else {
        lemma_rfind(q, '/', pre_len(q));
        let t = q.take(last_piece_cut(q));
        lemma_trim_right_prefix(t);
        let p = spec_trim_right(t);
        assert(p =~= s.take(p.len() as int));
    }
}

/// The parent of a path joined with a single plain name is the path itself,
/// without trailing separators and `.` pieces.
pub proof fn lemma_parent_of_join(a: Seq<char>, name: Seq<char>)
    requires
        name.len() > 0,
        name != seq!['.'],
        forall|i: int| 0 <= i < name.len() ==> name[i] != '/',
    ensures
        spec_path_parent(spec_path_join(a, name)) == Some(spec_trim_right(a)),
{
    let q = spec_path_join(a, name);
    if a.len() == 0 {
        assert(q =~= name);
        if name.len() == 1 && name[0] == '.' {
            assert(name =~= seq!['.']);
        }
        assert(name.len() > 1 ==> name[1] != '/');
        assert(pre_len(q) == 0);
        lemma_rfind_none(q, '/', 0);
        assert(q.subrange(0, q.len() as int) =~= name);
        assert(spec_trim_right(q) == q);
        assert(q.take(0) =~= a);
    } else if a.last() != '/' {
        assert(q =~= a + seq!['/'] + name);
        assert(q[0] == a[0]);
        assert(a.len() >= 2 ==> q[1] == a[1]);
        assert(a.len() == 1 ==> q[1] == '/');
        assert(pre_len(q) == pre_len(a));
        assert(q[a.len() as int] == '/');
        assert forall|j: int| a.len() < j < q.len() implies q[j] != '/' by {
            assert(q[j] == name[j - a.len() - 1]);
        }
        lemma_rfind_is(q, '/', pre_len(q), a.len() as int);
        assert(q.subrange(a.len() as int + 1, q.len() as int) =~= name);
        assert(spec_trim_right(q) == q);
        assert(q.take(a.len() as int) =~= a);
    } else {
        assert(q =~= a + name);
        assert(q[0] == a[0]);
        assert(a.len() >= 2 ==> q[1] == a[1]);
        assert(pre_len(q) == pre_len(a));
        if a.len() <= pre_len(a) {
            assert forall|j: int| 1 <= j < q.len() implies q[j] != '/' by {
                assert(q[j] == name[j - 1]);
            }
            lemma_rfind_none(q, '/', 1);
            assert(q.subrange(1, q.len() as int) =~= name);
            assert(spec_trim_right(q) == q);
            assert(q.take(1) =~= a);
        } else {
            assert forall|j: int| a.len() - 1 < j < q.len() implies q[j] != '/' by {
                assert(q[j] == name[j - a.len()]);
            }
            lemma_rfind_is(q, '/', pre_len(q), a.len() - 1);
            assert(q.subrange(a.len() as int, q.len() as int) =~= name);
            assert(spec_trim_right(q) == q);
            lemma_rfind_is(a, '/', pre_len(a), a.len() - 1);
            assert(a.subrange(a.len() as int, a.len() as int) =~= Seq::<char>::empty());
            assert(q.take(a.len() - 1) =~= a.take(a.len() - 1));
        }
    }
}

} // verus!
