//! URI, MIME type, path and base64 helpers of the resources system.

use vstd::prelude::*;
use base64::Engine;
use crate::mcp::resources::error::ResourceError;
use crate::text::{chars_of, concat4, has_prefix, is_ws, is_ws_exec, join, join_strings, owned, str_eq, string_of, strings_view};

verus! {

// ---------------------------------------------------------------------------
// URIs
// ---------------------------------------------------------------------------

/// A character that may appear in a URI scheme: an ASCII letter, digit or `-`.
pub open spec fn is_scheme_char(c: char) -> bool {
    ('a' <= c && c <= 'z') || ('A' <= c && c <= 'Z') || ('0' <= c && c <= '9') || c == '-'
}

/// The length of the longest prefix of `s` made of scheme characters.
pub open spec fn scheme_run(s: Seq<char>) -> nat
    decreases s.len(),
{
    if s.len() > 0 && is_scheme_char(s[0]) { 1 + scheme_run(s.subrange(1, s.len() as int)) } else { 0 }
}

/// `s` starts with a scheme: one or more scheme characters, then `:`.
pub open spec fn has_scheme(s: Seq<char>) -> bool {
    scheme_run(s) >= 1 && scheme_run(s) < s.len() && s[scheme_run(s) as int] == ':'
}

/// `s` is a well-formed URI: it starts with a scheme (`http://`, `https://`,
/// `file:///` and `git://` all do) and holds no white space.
pub open spec fn valid_uri(s: Seq<char>) -> bool {
    has_scheme(s) && forall|i: int| 0 <= i < s.len() ==> !is_ws(#[trigger] s[i])
}

/// The path part of a URI after its scheme: `rest`, except that three leading
/// slashes (an empty authority, as in `file:///a`) become two.
pub open spec fn path_part(rest: Seq<char>) -> Seq<char> {
    if has_prefix(rest, seq!['/', '/', '/']) { rest.subrange(1, rest.len() as int) } else { rest }
}

/// The scheme of `s` with its colon, and the path part after it; defined
/// when `s` starts with a scheme and the rest holds no line feed.
pub open spec fn uri_parts(s: Seq<char>) -> Option<(Seq<char>, Seq<char>)> {
    if has_scheme(s) && forall|i: int| scheme_run(s) < i < s.len() ==> #[trigger] s[i] != '\n' {
        Some((s.subrange(0, scheme_run(s) + 1int), path_part(s.subrange(scheme_run(s) + 1int, s.len() as int))))
    } else {
        None
    }
}

proof fn lemma_scheme_run_at(s: Seq<char>, i: int)
    requires
        0 <= i <= s.len(),
        forall|j: int| 0 <= j < i ==> is_scheme_char(#[trigger] s[j]),
        i == s.len() || !is_scheme_char(s[i]),
    ensures
        scheme_run(s) == i,
    decreases i,
{
    if i > 0 {
        let t = s.subrange(1, s.len() as int);
        assert forall|j: int| 0 <= j < i - 1 implies is_scheme_char(#[trigger] t[j]) by {
            assert(t[j] == s[j + 1]);
        }
        if i - 1 < t.len() { assert(t[i - 1] == s[i]); }
        lemma_scheme_run_at(t, i - 1);
    }
}

fn is_scheme_char_exec(c: char) -> (r: bool)
    ensures
        r == is_scheme_char(c),
{
    ('a' <= c && c <= 'z') || ('A' <= c && c <= 'Z') || ('0' <= c && c <= '9') || c == '-'
}

/// The length of the leading run of scheme characters.
fn scheme_run_exec(s: &Vec<char>) -> (r: usize)
    ensures
        r == scheme_run(s@),
{
    let mut i: usize = 0;
    while i < s.len() && is_scheme_char_exec(s[i])
        invariant
            i <= s@.len(),
            forall|j: int| 0 <= j < i ==> is_scheme_char(#[trigger] s@[j]),
        decreases s.len() - i,
    {
        i = i + 1;
    }
    proof { lemma_scheme_run_at(s@, i as int); }
    i
}

/// A well-formed URI can be split into its scheme and path.
pub proof fn lemma_valid_uri_splits(s: Seq<char>)
    requires
        valid_uri(s),
    ensures
        uri_parts(s) is Some,
{
    assert forall|i: int| scheme_run(s) < i < s.len() implies #[trigger] s[i] != '\n' by {
        assert(!is_ws(s[i]));
    }
}

/// The scheme and path of a URI put back together give the URI, but for the
/// slash dropped from an empty authority.
pub proof fn lemma_split_rejoins(s: Seq<char>)
    requires
        uri_parts(s) is Some,
    ensures
        ({
            let (a, b) = uri_parts(s)->0;
            s == a + b || s == a + seq!['/'] + b
        }),
{
    let k = scheme_run(s) as int;
    let a = s.subrange(0, k + 1);
    let rest = s.subrange(k + 1, s.len() as int);
    if has_prefix(rest, seq!['/', '/', '/']) {
        assert(rest =~= seq![rest[0]] + rest.subrange(1, rest.len() as int));
        assert(rest.subrange(0, 3)[0] == '/');
        assert(s =~= a + seq!['/'] + rest.subrange(1, rest.len() as int));
    } else {
        assert(s =~= a + rest);
    }
}

/// Checks that `uri` is a well-formed URI.
pub fn validate_uri(uri: &str) -> (r: Result<(), ResourceError>)
    ensures
        valid_uri(uri@) ==> r is Ok,
        !valid_uri(uri@) ==> (r matches Err(ResourceError::InvalidUri(u)) && u@ == uri@),
{
    let s = chars_of(uri);
    let k = scheme_run_exec(&s);
    let mut ok = k >= 1 && k < s.len() && s[k] == ':';
    let mut i: usize = 0;
    while ok && i < s.len()
        invariant
            i <= s@.len(),
            ok ==> has_scheme(s@),
            ok ==> forall|j: int| 0 <= j < i ==> !is_ws(#[trigger] s@[j]),
            !ok ==> !valid_uri(s@),
            k == scheme_run(s@),
        decreases s.len() - i + if ok { 1int } else { 0 },
    {
        if is_ws_exec(s[i]) {
            ok = false;
        } else {
            i = i + 1;
        }
    }
    if ok {
        Ok(())
    } else {
        Err(ResourceError::InvalidUri(owned(uri)))
    }
}

/// Splits `uri` into its scheme, with the colon, and the rest.
pub fn split_uri(uri: &str) -> (r: Result<(String, String), ResourceError>)
    ensures
        match uri_parts(uri@) {
            Some((scheme, path)) => r matches Ok((a, b)) && a@ == scheme && b@ == path,
            None => r matches Err(ResourceError::InvalidUri(u)) && u@ == uri@,
        },
{
    let s = chars_of(uri);
    let k = scheme_run_exec(&s);
    if !(k >= 1 && k < s.len() && s[k] == ':') {
        return Err(ResourceError::InvalidUri(owned(uri)));
    }
    let mut scheme: Vec<char> = Vec::new();
    let mut i: usize = 0;
    let n = s.len();
    while i <= k
        invariant
            i <= k + 1,
            k < n,
            n == s@.len(),
            scheme@ == s@.subrange(0, i as int),
        decreases k + 1 - i,
    {
        scheme.push(s[i]);
        i = i + 1;
        assert(scheme@ =~= s@.subrange(0, i as int));
    }
    let rest_len = s.len() - (k + 1);
    let skip: usize = if rest_len >= 3 && s[k + 1] == '/' && s[k + 2] == '/' && s[k + 3] == '/' { 1 } else { 0 };
    proof {
        let rest = s@.subrange(k + 1, s@.len() as int);
        if skip == 1 {
            assert(rest.subrange(0, 3) =~= seq!['/', '/', '/']);
        } else if rest.len() >= 3 {
            assert(rest.subrange(0, 3)[0] == s@[k + 1]);
            assert(rest.subrange(0, 3)[1] == s@[k + 2]);
            assert(rest.subrange(0, 3)[2] == s@[k + 3]);
        }
        assert(path_part(rest) =~= s@.subrange(k + 1 + skip, s@.len() as int));
    }
    let mut path: Vec<char> = Vec::new();
    let mut j: usize = k + 1 + skip;
    assert(path@ =~= s@.subrange(k + 1 + skip, j as int));
    while j < s.len()
        invariant
            k + 1 + skip <= j <= s@.len(),
            path@ == s@.subrange(k + 1 + skip, j as int),
            path_part(s@.subrange(k + 1, s@.len() as int)) == s@.subrange(k + 1 + skip, s@.len() as int),
            k == scheme_run(s@),
            has_scheme(s@),
            s@ == uri@,
            forall|m: int| k < m < j ==> #[trigger] s@[m] != '\n',
        decreases s.len() - j,
    {
        if s[j] == '\n' {
            assert(s@[j as int] == '\n');
            return Err(ResourceError::InvalidUri(owned(uri)));
        }
        path.push(s[j]);
        j = j + 1;
        assert(path@ =~= s@.subrange(k + 1 + skip, j as int));
    }
    Ok((string_of(scheme.as_slice()), string_of(path.as_slice())))
}

// ---------------------------------------------------------------------------
// MIME types
// ---------------------------------------------------------------------------

/// A MIME type of textual content: any `text/` type, JSON, XML, YAML or TOML.
pub open spec fn text_mime(m: Seq<char>) -> bool {
    has_prefix(m, "text/"@) || m == "application/json"@ || m == "application/xml"@
        || m == "application/yaml"@ || m == "application/toml"@
}

/// Whether `mime_type` denotes textual content.
pub fn is_text_mime_type(mime_type: &str) -> (r: bool)
    ensures
        r == text_mime(mime_type@),
{
    let s = chars_of(mime_type);
    let p = chars_of("text/");
    crate::text::occurs_at_exec(&s, &p, 0)
        || str_eq(mime_type, "application/json")
        || str_eq(mime_type, "application/xml")
        || str_eq(mime_type, "application/yaml")
        || str_eq(mime_type, "application/toml")
}

/// The first MIME type that mime_guess associates with the extension of `path`.
pub uninterp spec fn mime_guess_first(path: Seq<char>) -> Option<Seq<char>>;

/// mime_guess's `from_path(path).first()`, rendered as text. The guess depends
/// on the path's extension alone, by the crate's static table.
#[verifier::external_body]
fn guessed_mime(path: &str) -> (r: Option<String>)
    ensures
        match r {
            Some(m) => mime_guess_first(path@) == Some(m@),
            None => mime_guess_first(path@) is None,
        },
{
    mime_guess::from_path(path).first().map(|m| m.to_string())
}

/// The MIME type guessed from the extension of `path`.
pub fn guess_mime_type(path: &str) -> (r: Option<String>)
    ensures
        match r {
            Some(m) => mime_guess_first(path@) == Some(m@),
            None => mime_guess_first(path@) is None,
        },
{
    guessed_mime(path)
}

// ---------------------------------------------------------------------------
// Paths
// ---------------------------------------------------------------------------

/// A named component of a path: neither empty nor `.`.
pub open spec fn named_piece(c: Seq<char>) -> bool {
    c.len() > 0 && c != "."@
}

/// The components of a path text, as std's `Path::components` gives them on
/// Unix: the root first for an absolute path, `.` first for a path that
/// starts with it, then the named pieces between slashes (empty pieces and
/// later `.` dropped).
/// The named pieces among `ps`, in order.
pub open spec fn named_pieces(ps: Seq<Seq<char>>) -> Seq<Seq<char>>
    decreases ps.len(),
{
    if ps.len() == 0 {
        Seq::empty()
    } else if named_piece(ps.last()) {
        named_pieces(ps.drop_last()).push(ps.last())
    } else {
        named_pieces(ps.drop_last())
    }
}

/// A path text has at least one piece.
proof fn lemma_pieces_nonempty(s: Seq<char>, cur: Seq<char>)
    ensures
        pieces_from(s, cur).len() >= 1,
    decreases s.len(),
{
    if s.len() > 0 {
        if s[0] == '/' {
            lemma_pieces_nonempty(s.subrange(1, s.len() as int), Seq::empty());
        } else {
            lemma_pieces_nonempty(s.subrange(1, s.len() as int), cur.push(s[0]));
        }
    }
}

pub open spec fn path_components(p: Seq<char>) -> Seq<Seq<char>> {
    let named = named_pieces(pieces(p));
    if rooted(p) {
        seq!["/"@] + named
    } else if pieces(p)[0] == "."@ {
        seq!["."@] + named
    } else {
        named
    }
}

/// `base` is a prefix of `path`, component by component (std's
/// `Path::starts_with`).
pub open spec fn path_has_base(path: Seq<char>, base: Seq<char>) -> bool {
    let b = path_components(base);
    let q = path_components(path);
    b.len() <= q.len() && q.subrange(0, b.len() as int) == b
}


/// std's `{:?}` rendering of a path.
pub uninterp spec fn path_debug(path: Seq<char>) -> Seq<char>;

/// The components of a path text.
pub fn components_of(p: &str) -> (r: Vec<String>)
    ensures
        strings_view(r@) == path_components(p@),
{
    let ps = split_pieces(p);
    let ghost all = strings_view(ps@);
    let mut named: Vec<String> = Vec::new();
    let mut i: usize = 0;
    assert(all.subrange(0, 0) =~= Seq::<Seq<char>>::empty());
    assert(strings_view(named@) =~= Seq::<Seq<char>>::empty());
    while i < ps.len()
        invariant
            i <= ps@.len(),
            all == strings_view(ps@),
            strings_view(named@) == named_pieces(all.subrange(0, i as int)),
        decreases ps.len() - i,
    {
        let ghost before = named@;
        proof {
            assert(all.subrange(0, i + 1).drop_last() =~= all.subrange(0, i as int));
            assert(all.subrange(0, i + 1).last() == all[i as int]);
            assert(ps@[i as int]@ == all[i as int]);
            reveal_strlit("");
            reveal_strlit(".");
        }
        let c = ps[i].as_str();
        if !str_eq(c, "") && !str_eq(c, ".") {
            proof {
                if c@.len() == 0 {
                    assert(c@ =~= ""@);
                }
            }
            let w = ps[i].clone();
            named.push(w);
            assert(strings_view(named@) =~= strings_view(before).push(w@));
        } else {
            proof {
                if c@ == ""@ {
                    assert(c@.len() == 0);
                }
            }
        }
        i = i + 1;
    }
    assert(all.subrange(0, ps@.len() as int) =~= all);
    let cs = chars_of(p);
    proof {
        reveal_strlit("/");
        reveal_strlit(".");
        lemma_pieces_nonempty(p@, Seq::empty());
        assert(ps@[0]@ == all[0]);
    }
    if cs.len() > 0 && cs[0] == '/' {
        let mut out: Vec<String> = Vec::new();
        out.push(owned("/"));
        let ghost first = strings_view(out@);
        assert(first =~= seq!["/"@]);
        let ghost tail = strings_view(named@);
        out.append(&mut named);
        assert(strings_view(out@) =~= first + tail);
        out
    } else if str_eq(ps[0].as_str(), ".") {
        let mut out: Vec<String> = Vec::new();
        out.push(owned("."));
        let ghost first = strings_view(out@);
        assert(first =~= seq!["."@]);
        let ghost tail = strings_view(named@);
        out.append(&mut named);
        assert(strings_view(out@) =~= first + tail);
        out
    } else {
        named
    }
}

/// Whether `base` is a prefix of `path`, component by component.
pub fn has_base(path: &str, base: &str) -> (r: bool)
    ensures
        r == path_has_base(path@, base@),
{
    let q = components_of(path);
    let b = components_of(base);
    if b.len() > q.len() {
        assert(strings_view(b@).len() > strings_view(q@).len());
        return false;
    }
    let mut i: usize = 0;
    while i < b.len()
        invariant
            b@.len() <= q@.len(),
            i <= b@.len(),
            strings_view(b@) == path_components(base@),
            strings_view(q@) == path_components(path@),
            forall|j: int| 0 <= j < i ==> q@[j]@ == b@[j]@,
        decreases b.len() - i,
    {
        if !str_eq(q[i].as_str(), b[i].as_str()) {
            proof {
                let bs = strings_view(b@);
                let qs = strings_view(q@);
                assert(bs[i as int] == b@[i as int]@);
                assert(qs[i as int] == q@[i as int]@);
                assert(qs.subrange(0, bs.len() as int)[i as int] != bs[i as int]);
                assert(qs.subrange(0, bs.len() as int) != bs);
            }
            return false;
        }
        i = i + 1;
    }
    proof {
        let bs = strings_view(b@);
        let qs = strings_view(q@);
        assert forall|j: int| 0 <= j < bs.len() implies #[trigger] qs.subrange(0, bs.len() as int)[j] == bs[j] by {
            assert(bs[j] == b@[j]@);
            assert(qs[j] == q@[j]@);
        }
        assert(qs.subrange(0, bs.len() as int) =~= bs);
    }
    true
}

/// The pieces of a path text between its slashes, after the partial piece
/// `cur`; empty pieces included.
pub open spec fn pieces_from(s: Seq<char>, cur: Seq<char>) -> Seq<Seq<char>>
    decreases s.len(),
{
    if s.len() == 0 {
        seq![cur]
    } else if s[0] == '/' {
        seq![cur] + pieces_from(s.subrange(1, s.len() as int), Seq::empty())
    } else {
        pieces_from(s.subrange(1, s.len() as int), cur.push(s[0]))
    }
}

/// The pieces of a path text between its slashes.
pub open spec fn pieces(s: Seq<char>) -> Seq<Seq<char>> {
    pieces_from(s, Seq::empty())
}

/// The components reached from `stack` by walking `parts` in order: empty
/// pieces and `.` stay put, `..` steps back out of the last named
/// component (at the root of a rooted path it stays there; elsewhere it is
/// kept), any other piece steps in.
pub open spec fn walk(stack: Seq<Seq<char>>, parts: Seq<Seq<char>>, rooted: bool) -> Seq<Seq<char>>
    decreases parts.len(),
{
    if parts.len() == 0 {
        stack
    } else {
        let p = parts[0];
        let rest = parts.subrange(1, parts.len() as int);
        if p.len() == 0 || p == "."@ {
            walk(stack, rest, rooted)
        } else if p == ".."@ {
            if stack.len() > 0 && stack.last() != ".."@ {
                walk(stack.drop_last(), rest, rooted)
            } else if rooted {
                walk(stack, rest, rooted)
            } else {
                walk(stack.push(p), rest, rooted)
            }
        } else {
            walk(stack.push(p), rest, rooted)
        }
    }
}

/// Whether a path text is absolute: it starts at the root.
pub open spec fn rooted(s: Seq<char>) -> bool {
    s.len() > 0 && s[0] == '/'
}

/// `path` taken from `base_dir`, with `.` and `..` resolved in the text: an
/// absolute `path` stands alone; the result is absolute when the walk starts
/// at the root, its components joined by slashes.
pub open spec fn resolved_path(base_dir: Seq<char>, path: Seq<char>) -> Seq<char> {
    let root = if rooted(path) { true } else { rooted(base_dir) };
    let parts = if rooted(path) { pieces(path) } else { pieces(base_dir) + pieces(path) };
    (if root { "/"@ } else { Seq::empty() }) + join(walk(Seq::empty(), parts, root), "/"@)
}

/// The pieces of `s` between its slashes.
fn split_pieces(s: &str) -> (r: Vec<String>)
    ensures
        strings_view(r@) == pieces(s@),
{
    let cs = chars_of(s);
    let n = cs.len();
    let mut out: Vec<String> = Vec::new();
    let mut cur: Vec<char> = Vec::new();
    let mut i: usize = 0;
    assert(cs@.subrange(0, n as int) =~= cs@);
    while i < n
        invariant
            i <= n,
            n == cs@.len(),
            cs@ == s@,
            strings_view(out@) + pieces_from(cs@.subrange(i as int, n as int), cur@) == pieces(s@),
        decreases n - i,
    {
        let ghost rest = cs@.subrange(i as int, n as int);
        let ghost tail = cs@.subrange(i + 1, n as int);
        assert(rest.subrange(1, rest.len() as int) =~= tail);
        assert(rest[0] == cs@[i as int]);
        let c = cs[i];
        if c == '/' {
            let ghost old_cur = cur@;
            let w = string_of(cur.as_slice());
            let ghost before = out@;
            out.push(w);
            assert(strings_view(out@) =~= strings_view(before) + seq![old_cur]);
            cur = Vec::new();
            assert(strings_view(before) + (seq![old_cur] + pieces_from(tail, Seq::empty()))
                =~= strings_view(out@) + pieces_from(tail, cur@));
        } else {
            cur.push(c);
        }
        i = i + 1;
    }
    assert(cs@.subrange(n as int, n as int) =~= Seq::<char>::empty());
    let w = string_of(cur.as_slice());
    let ghost before = out@;
    out.push(w);
    assert(strings_view(out@) =~= strings_view(before) + seq![cur@]);
    out
}

/// `path` taken from `base_dir` with `.` and `..` resolved in the text.
pub fn resolve_path(base_dir: &str, path: &str) -> (r: String)
    ensures
        r@ == resolved_path(base_dir@, path@),
{
    let pc = chars_of(path);
    let bc = chars_of(base_dir);
    let path_rooted = pc.len() > 0 && pc[0] == '/';
    let root = if path_rooted { true } else { bc.len() > 0 && bc[0] == '/' };
    let mut parts = split_pieces(path);
    if !path_rooted {
        let mut all = split_pieces(base_dir);
        let ghost b = strings_view(all@);
        let ghost q = strings_view(parts@);
        all.append(&mut parts);
        assert(strings_view(all@) =~= b + q);
        parts = all;
    }
    let ghost whole = strings_view(parts@);
    let mut stack: Vec<String> = Vec::new();
    let mut i: usize = 0;
    assert(whole.subrange(0, whole.len() as int) =~= whole);
    assert(strings_view(stack@) =~= Seq::<Seq<char>>::empty());
    while i < parts.len()
        invariant
            i <= parts@.len(),
            whole == strings_view(parts@),
            walk(Seq::empty(), whole, root) == walk(strings_view(stack@), whole.subrange(i as int, whole.len() as int), root),
        decreases parts.len() - i,
    {
        let ghost st = strings_view(stack@);
        let ghost rest = whole.subrange(i as int, whole.len() as int);
        assert(rest.subrange(1, rest.len() as int) =~= whole.subrange(i + 1, whole.len() as int));
        assert(rest[0] == parts@[i as int]@);
        proof { reveal_strlit(""); }
        let p = parts[i].as_str();
        assert(p@ == rest[0]);
        if str_eq(p, "") || str_eq(p, ".") {
            assert(rest[0].len() == 0 || rest[0] == "."@);
            assert(walk(st, rest, root) == walk(st, whole.subrange(i + 1, whole.len() as int), root));
        } else if str_eq(p, "..") {
            let n = stack.len();
            if n > 0 {
                assert(stack@[n - 1]@ == st.last());
            }
            if n > 0 && !str_eq(stack[n - 1].as_str(), "..") {
                let _ = stack.pop();
                assert(strings_view(stack@) =~= st.drop_last());
            } else if root {
            } else {
                stack.push(parts[i].clone());
                assert(strings_view(stack@) =~= st.push(rest[0]));
            }
        } else {
            proof {
                if rest[0].len() == 0 {
                    assert(rest[0] =~= ""@);
                }
            }
            assert(rest[0].len() != 0 && rest[0] != "."@ && rest[0] != ".."@);
            stack.push(parts[i].clone());
            assert(strings_view(stack@) =~= st.push(rest[0]));
        }
        i = i + 1;
    }
    assert(whole.subrange(whole.len() as int, whole.len() as int) =~= Seq::<Seq<char>>::empty());
    let joined = join_strings(&stack, "/");
    if root {
        crate::text::concat2("/", joined.as_str())
    } else {
        joined
    }
}

/// `{:?}` of a path, from std.
#[verifier::external_body]
fn debug_path(path: &str) -> (r: String)
    ensures
        r@ == path_debug(path@),
{
    format!("{:?}", std::path::Path::new(path))
}

/// `Path::canonicalize` from std: the absolute path with links resolved, or
/// the text of the I/O error. It reads the file system, so nothing is claimed
/// of the result.
#[verifier::external_body]
fn canonical_path(path: &str) -> (r: Result<String, String>) {
    match std::path::Path::new(path).canonicalize() {
        Ok(p) => Ok(p.to_string_lossy().into_owned()),
        Err(e) => Err(e.to_string()),
    }
}

/// `r` is the verdict on `path` against `base_dir`, given what canonicalizing
/// each of them gave: the base must canonicalize; a path that does not is
/// taken from the base with `.` and `..` resolved in its text; the result must lie under
/// the canonical base.
pub open spec fn safety_verdict(
    base_dir: Seq<char>,
    path: Seq<char>,
    abs_base: Result<String, String>,
    abs_path: Result<String, String>,
    r: Result<(), ResourceError>,
) -> bool {
    match abs_base {
        Err(e) => r matches Err(ResourceError::IoError(m)) && m@ == "Failed to canonicalize base path: "@ + e@,
        Ok(b) => {
            let p = match abs_path { Ok(p) => p@, Err(_) => resolved_path(base_dir, path) };
            if path_has_base(p, b@) {
                r is Ok
            } else {
                r matches Err(ResourceError::SecurityViolation(m))
                    && m@ == "Path traversal attempt: "@ + path_debug(path) + " is outside "@ + path_debug(base_dir)
            }
        },
    }
}

/// The verdict on `path` against `base_dir`, given what canonicalizing each of
/// them gave: the base must canonicalize; a path that does not is taken from the
/// base with `.` and `..` resolved in its text; the result must lie under the
/// canonical base.
pub fn path_safety_verdict(
    base_dir: &str,
    path: &str,
    abs_base: Result<String, String>,
    abs_path: Result<String, String>,
) -> (r: Result<(), ResourceError>)
    ensures
        safety_verdict(base_dir@, path@, abs_base, abs_path, r),
{
    let b = match abs_base {
        Err(e) => return Err(ResourceError::IoError(crate::text::concat2("Failed to canonicalize base path: ", e.as_str()))),
        Ok(b) => b,
    };
    let p = match abs_path {
        Ok(p) => p,
        Err(_) => resolve_path(base_dir, path),
    };
    if !has_base(p.as_str(), b.as_str()) {
        let shown_path = debug_path(path);
        let shown_base = debug_path(base_dir);
        return Err(ResourceError::SecurityViolation(
            concat4("Path traversal attempt: ", shown_path.as_str(), " is outside ", shown_base.as_str()),
        ));
    }
    Ok(())
}

/// Checks that `path` does not lead outside `base_dir`. Both are canonicalized
/// on the file system first; the verdict is `path_safety_verdict` on what that
/// gave.
pub fn validate_path_safety(base_dir: &str, path: &str) -> (r: Result<(), ResourceError>)
    ensures
        exists|abs_base: Result<String, String>, abs_path: Result<String, String>|
            safety_verdict(base_dir@, path@, abs_base, abs_path, r),
        r matches Err(ResourceError::IoError(m)) ==> has_prefix(m@, "Failed to canonicalize base path: "@),
        r matches Err(ResourceError::SecurityViolation(m))
            ==> m@ == "Path traversal attempt: "@ + path_debug(path@) + " is outside "@ + path_debug(base_dir@),
        r is Ok || r matches Err(ResourceError::IoError(_)) || r matches Err(ResourceError::SecurityViolation(_)),
{
    let abs_base = canonical_path(base_dir);
    let abs_path = canonical_path(path);
    let ghost (gb, gp) = (abs_base, abs_path);
    proof { reveal_strlit("Failed to canonicalize base path: "); }
    let r = path_safety_verdict(base_dir, path, abs_base, abs_path);
    assert(safety_verdict(base_dir@, path@, gb, gp, r));
    proof {
        if r is Err && r->Err_0 is IoError {
            let m = r->Err_0->IoError_0;
            assert(m@.subrange(0, "Failed to canonicalize base path: "@.len() as int) =~= "Failed to canonicalize base path: "@);
        }
    }
    r
}

// ---------------------------------------------------------------------------
// Base64
// ---------------------------------------------------------------------------

/// The character of the standard base64 alphabet for a value below 64.
pub open spec fn b64_char(n: int) -> char {
    if n < 26 { (65 + n) as char }
    else if n < 52 { (97 + n - 26) as char }
    else if n < 62 { (48 + n - 52) as char }
    else if n == 62 { '+' }
    else { '/' }
}

/// Standard base64 with `=` padding (RFC 4648), three bytes to four characters.
pub open spec fn b64_encode(b: Seq<u8>) -> Seq<char>
    decreases b.len(),
{
    let x = if b.len() > 0 { b[0] as int } else { 0 };
    let y = if b.len() > 1 { b[1] as int } else { 0 };
    let z = if b.len() > 2 { b[2] as int } else { 0 };
    if b.len() == 0 {
        Seq::empty()
    } else if b.len() == 1 {
        seq![b64_char(x / 4), b64_char((x % 4) * 16), '=', '=']
    } else if b.len() == 2 {
        seq![b64_char(x / 4), b64_char((x % 4) * 16 + y / 16), b64_char((y % 16) * 4), '=']
    } else {
        seq![b64_char(x / 4), b64_char((x % 4) * 16 + y / 16), b64_char((y % 16) * 4 + z / 64), b64_char(z % 64)]
            + b64_encode(b.subrange(3, b.len() as int))
    }
}

/// Each value below 64 has its own character, and none is the padding `=`.
proof fn lemma_b64_char_injective(x: int, y: int)
    requires
        0 <= x < 64,
        0 <= y < 64,
    ensures
        b64_char(x) != '=',
        b64_char(x) == b64_char(y) ==> x == y,
{
}

/// The length of an encoding: four characters per started group of three bytes.
proof fn lemma_b64_len(b: Seq<u8>)
    ensures
        b64_encode(b).len() == 4 * ((b.len() + 2) / 3),
    decreases b.len(),
{
    if b.len() > 2 {
        lemma_b64_len(b.subrange(3, b.len() as int));
    }
}

/// Bytes are given back by the four characters that encode them.
proof fn lemma_b64_group(x: int, y: int, z: int, p: int, q: int, r: int)
    requires
        0 <= x < 256, 0 <= y < 256, 0 <= z < 256,
        0 <= p < 256, 0 <= q < 256, 0 <= r < 256,
        x / 4 == p / 4,
        (x % 4) * 16 + y / 16 == (p % 4) * 16 + q / 16,
        (y % 16) * 4 + z / 64 == (q % 16) * 4 + r / 64,
        z % 64 == r % 64,
    ensures
        x == p && y == q && z == r,
{
}

/// Padded standard base64 never encodes two byte strings alike, so decoding
/// an encoding gives back the bytes encoded.
#[verifier::spinoff_prover]
pub proof fn lemma_b64_injective(a: Seq<u8>, b: Seq<u8>)
    requires
        b64_encode(a) == b64_encode(b),
    ensures
        a == b,
    decreases a.len(),
{
    let ea = b64_encode(a);
    lemma_b64_len(a);
    lemma_b64_len(b);
    if a.len() == 0 || b.len() == 0 {
        assert(a.len() == 0 && b.len() == 0);
        assert(a =~= b);
        return;
    }
    let x = a[0] as int;
    let p = b[0] as int;
    let y = if a.len() > 1 { a[1] as int } else { 0 };
    let q = if b.len() > 1 { b[1] as int } else { 0 };
    let z = if a.len() > 2 { a[2] as int } else { 0 };
    let r = if b.len() > 2 { b[2] as int } else { 0 };
    lemma_b64_char_injective(x / 4, p / 4);
    lemma_b64_char_injective((x % 4) * 16 + y / 16, (p % 4) * 16 + q / 16);
    lemma_b64_char_injective((y % 16) * 4 + z / 64, (q % 16) * 4 + r / 64);
    lemma_b64_char_injective(z % 64, r % 64);
    lemma_b64_char_injective((x % 4) * 16, (p % 4) * 16 + q / 16);
    lemma_b64_char_injective((x % 4) * 16 + y / 16, (p % 4) * 16);
    lemma_b64_char_injective((y % 16) * 4, (q % 16) * 4 + r / 64);
    lemma_b64_char_injective((y % 16) * 4 + z / 64, (q % 16) * 4);
    assert(ea[0] == b64_encode(b)[0]);
    assert(ea[1] == b64_encode(b)[1]);
    assert(ea[2] == b64_encode(b)[2]);
    assert(ea[3] == b64_encode(b)[3]);
    if a.len() == 1 || b.len() == 1 {
        assert(a.len() == 1 && b.len() == 1);
        lemma_b64_group(x, 0, 0, p, 0, 0);
        assert(a =~= b);
    } else if a.len() == 2 || b.len() == 2 {
        assert(a.len() == 2 && b.len() == 2);
        lemma_b64_group(x, y, 0, p, q, 0);
        assert(a =~= b);
    } else {
        let eb = b64_encode(b);
        assert(ea[0] == b64_char(x / 4) && eb[0] == b64_char(p / 4));
        assert(ea[1] == b64_char((x % 4) * 16 + y / 16) && eb[1] == b64_char((p % 4) * 16 + q / 16));
        assert(ea[2] == b64_char((y % 16) * 4 + z / 64) && eb[2] == b64_char((q % 16) * 4 + r / 64));
        assert(ea[3] == b64_char(z % 64) && eb[3] == b64_char(r % 64));
        lemma_b64_group(x, y, z, p, q, r);
        let ra = a.subrange(3, a.len() as int);
        let rb = b.subrange(3, b.len() as int);
        assert(b64_encode(ra) =~= ea.subrange(4, ea.len() as int));
        assert(b64_encode(rb) =~= b64_encode(b).subrange(4, ea.len() as int));
        lemma_b64_injective(ra, rb);
        assert(a =~= seq![a[0], a[1], a[2]] + ra);
        assert(b =~= seq![b[0], b[1], b[2]] + rb);
    }
}

/// base64's `STANDARD.encode`: padded standard base64.
#[verifier::external_body]
pub(crate) fn b64_encode_std(data: &[u8]) -> (r: String)
    ensures
        r@ == b64_encode(data@),
{
    base64::engine::general_purpose::STANDARD.encode(data)
}

/// base64's `STANDARD.decode`, its error rendered as text. The engine demands
/// canonical padding and no trailing bits, so it accepts exactly the texts
/// that its encoder produces, and gives back the bytes they encode.
#[verifier::external_body]
pub(crate) fn b64_decode_std(data: &str) -> (r: Result<Vec<u8>, String>)
    ensures
        r matches Ok(v) ==> b64_encode(v@) == data@,
        r is Err ==> forall|v: Seq<u8>| b64_encode(v) != data@,
{
    base64::engine::general_purpose::STANDARD.decode(data).map_err(|e| e.to_string())
}

/// `data` in padded standard base64.
pub fn encode_binary(data: &[u8]) -> (r: String)
    ensures
        r@ == b64_encode(data@),
{
    b64_encode_std(data)
}

/// The bytes that the base64 text `data` encodes.
pub fn decode_binary(data: &str) -> (r: Result<Vec<u8>, ResourceError>)
    ensures
        r matches Ok(v) ==> b64_encode(v@) == data@,
        r matches Err(e) ==> (e is DeserializationError && forall|v: Seq<u8>| b64_encode(v) != data@),
{
    match b64_decode_std(data) {
        Ok(v) => Ok(v),
        Err(e) => Err(ResourceError::DeserializationError(crate::text::concat2("Failed to decode base64: ", e.as_str()))),
    }
}

} // verus!
