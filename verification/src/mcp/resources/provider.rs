//! The file-system resource provider: which files it offers, under which
//! URIs and MIME types, a page at a time, and how each is read.

use vstd::prelude::*;
use crate::keyed::KeyedList;
use crate::mcp::resources::error::ResourceError;
use crate::mcp::resources::utils::{components_of, path_components};
use crate::mcp::resources::models::{
    BinaryContent, Resource, ResourceContents, ResourceReadResponse, TextContent,
};
use crate::mcp::resources::utils::{b64_encode, b64_encode_std};
use crate::text::{
    chars_of, concat2, concat3, decimal, lemma_decimal_parses, has_prefix, has_suffix, occurs_at_exec, owned, replace_all,
    parse_unsigned, parsed_unsigned, replace_all_exec, str_eq, string_of, u64_to_string,
};

verus! {

/// The prefix of every URI this provider handles.
pub open spec fn file_scheme() -> Seq<char> {
    "file:///"@
}

/// `s` without any number of leading copies of the non-empty `p`.
pub open spec fn strip_all(s: Seq<char>, p: Seq<char>) -> Seq<char>
    decreases s.len(),
{
    if p.len() > 0 && has_prefix(s, p) {
        strip_all(s.subrange(p.len() as int, s.len() as int), p)
    } else {
        s
    }
}

/// The extension of a file name, as std's `Path::extension` takes it: the
/// part after its last dot, where that dot is not its first character.
pub open spec fn name_ext(f: Seq<char>) -> Option<Seq<char>> {
    if exists|i: int| 0 < i < f.len() && f[i] == '.' {
        let i = choose|i: int| 0 < i < f.len() && f[i] == '.' && forall|j: int| i < j < f.len() ==> f[j] != '.';
        Some(f.subrange(i + 1, f.len() as int))
    } else {
        None
    }
}

/// The extension of a path (std's `Path::extension`): that of its file name.
pub open spec fn path_ext(path: Seq<char>) -> Option<Seq<char>> {
    match path_file_name(path) {
        Some(f) => name_ext(f),
        None => None,
    }
}

/// A path joined onto a base, as `Path::join` does on Unix: an absolute
/// `path` stands alone; otherwise it follows `base`, with a slash between
/// them unless `base` is empty or already ends in one.
pub open spec fn path_joined(base: Seq<char>, path: Seq<char>) -> Seq<char> {
    if path.len() > 0 && path[0] == '/' {
        path
    } else if base.len() == 0 || base.last() == '/' {
        base + path
    } else {
        base + "/"@ + path
    }
}

/// std's `Path::strip_prefix`: `path` relative to `base`, when `base` is a
/// prefix of it component by component.
pub uninterp spec fn path_relative(path: Seq<char>, base: Seq<char>) -> Option<Seq<char>>;

/// The file name of a path (std's `Path::file_name`): its last component,
/// unless there is none or it is the root, `.` or `..`.
pub open spec fn path_file_name(path: Seq<char>) -> Option<Seq<char>> {
    let c = path_components(path);
    if c.len() > 0 && c.last() != "/"@ && c.last() != "."@ && c.last() != ".."@ {
        Some(c.last())
    } else {
        None
    }
}

/// The file name of a path.
fn file_name_of(path: &str) -> (r: Option<String>)
    ensures
        match r {
            Some(n) => path_file_name(path@) == Some(n@),
            None => path_file_name(path@) is None,
        },
{
    let c = components_of(path);
    proof {
        reveal_strlit("/");
        reveal_strlit(".");
        reveal_strlit("..");
    }
    let n = c.len();
    if n == 0 {
        return None;
    }
    assert(crate::text::strings_view(c@).last() == c@[n - 1]@);
    let last = c[n - 1].as_str();
    if str_eq(last, "/") || str_eq(last, ".") || str_eq(last, "..") {
        None
    } else {
        Some(owned(last))
    }
}

/// The extension of a path.
fn extension_of(path: &str) -> (r: Option<String>)
    ensures
        match r {
            Some(e) => path_ext(path@) == Some(e@),
            None => path_ext(path@) is None,
        },
{
    let f = match file_name_of(path) {
        Some(f) => f,
        None => return None,
    };
    let cs = chars_of(f.as_str());
    let n = cs.len();
    let mut i: usize = n;
    while i > 1
        invariant
            1 <= i <= n || (n == 0 && i == 0),
            i <= n,
            n == cs@.len(),
            cs@ == f@,
            path_file_name(path@) == Some(f@),
            forall|j: int| i <= j < n ==> cs@[j] != '.',
        decreases i,
    {
        if cs[i - 1] == '.' {
            let k = i - 1;
            proof {
                assert(0 < k < f@.len() && f@[k as int] == '.');
                let c = choose|c: int| 0 < c < f@.len() && f@[c] == '.' && forall|j: int| c < j < f@.len() ==> f@[j] != '.';
                if c < k {
                    assert(f@[k as int] == '.');
                }
                if c > k {
                    assert(f@[c] != '.');
                }
            }
            let mut tail: Vec<char> = Vec::new();
            let mut j: usize = k + 1;
            while j < n
                invariant
                    k + 1 <= j <= n,
                    n == cs@.len(),
                    tail@ == cs@.subrange(k + 1, j as int),
                decreases n - j,
            {
                tail.push(cs[j]);
                assert(tail@ =~= cs@.subrange(k + 1, j + 1));
                j = j + 1;
            }
            let rest = string_of(tail.as_slice());
            assert(rest@ =~= f@.subrange(k + 1, f@.len() as int));
            assert(name_ext(f@) == Some(f@.subrange(k + 1, f@.len() as int)));
            return Some(rest);
        }
        i = i - 1;
    }
    assert(forall|j: int| 0 < j < f@.len() ==> f@[j] != '.');
    None
}

/// `path` joined onto `base`.
fn join_path(base: &str, path: &str) -> (r: String)
    ensures
        r@ == path_joined(base@, path@),
{
    let p = chars_of(path);
    let b = chars_of(base);
    if p.len() > 0 && p[0] == '/' {
        return owned(path);
    }
    proof { reveal_strlit("/"); }
    if b.len() == 0 || b[b.len() - 1] == '/' {
        concat2(base, path)
    } else {
        concat3(base, "/", path)
    }
}

/// `Path::strip_prefix` from std, as text.
#[verifier::external_body]
fn relative_path(path: &str, base: &str) -> (r: Option<String>)
    ensures
        match r {
            Some(p) => path_relative(path@, base@) == Some(p@),
            None => path_relative(path@, base@) is None,
        },
{
    std::path::Path::new(path).strip_prefix(base).ok().map(|p| p.to_string_lossy().into_owned())
}


/// The default table from file extensions to MIME types.
pub open spec fn default_mime(ext: Seq<char>) -> Option<Seq<char>> {
    if ext == "txt"@ { Some("text/plain"@) }
    else if ext == "md"@ { Some("text/markdown"@) }
    else if ext == "rst"@ { Some("text/x-rst"@) }
    else if ext == "rs"@ { Some("text/x-rust"@) }
    else if ext == "py"@ { Some("text/x-python"@) }
    else if ext == "js"@ { Some("text/javascript"@) }
    else if ext == "ts"@ { Some("text/typescript"@) }
    else if ext == "html"@ { Some("text/html"@) }
    else if ext == "css"@ { Some("text/css"@) }
    else if ext == "json"@ { Some("application/json"@) }
    else if ext == "yaml"@ { Some("application/yaml"@) }
    else if ext == "yml"@ { Some("application/yaml"@) }
    else if ext == "toml"@ { Some("application/toml"@) }
    else if ext == "png"@ { Some("image/png"@) }
    else if ext == "jpg"@ { Some("image/jpeg"@) }
    else if ext == "jpeg"@ { Some("image/jpeg"@) }
    else if ext == "gif"@ { Some("image/gif"@) }
    else if ext == "svg"@ { Some("image/svg+xml"@) }
    else { None }
}

/// The extensions of text files: plain text, markup, source code, and the
/// text formats of data.
pub open spec fn text_extension(ext: Seq<char>) -> bool {
    ||| ext == "txt"@ || ext == "md"@ || ext == "rst"@
    ||| ext == "rs"@ || ext == "py"@ || ext == "js"@ || ext == "ts"@
    ||| ext == "html"@ || ext == "css"@ || ext == "svg"@
    ||| ext == "json"@ || ext == "yaml"@ || ext == "yml"@
}

/// Every type of the default table names a top-level type of text,
/// application data or images.
pub open spec fn registered_top_level(m: Seq<char>) -> bool {
    has_prefix(m, "text/"@) || has_prefix(m, "application/"@) || has_prefix(m, "image/"@)
}

/// Laws of the default MIME table, for a provider `p` and an extension `ext`:
/// - two spellings of one format get one type: `yml` that of `yaml`, `jpg`
///   that of `jpeg`;
/// - the data formats JSON, YAML and TOML are `application/` followed by the
///   format's extension, and the raster images PNG, GIF and JPEG are `image/`
///   followed by theirs, and are read as bytes;
/// - files of text, markup, source code and textual data get a type, and
///   the provider reads them as text;
/// - every type the table gives has a registered top-level type.
pub proof fn lemma_default_mime_types(p: FileSystemProvider, ext: Seq<char>)
    ensures
        default_mime("yml"@) == default_mime("yaml"@),
        default_mime("jpg"@) == default_mime("jpeg"@),
        ext == "json"@ || ext == "yaml"@ || ext == "toml"@ ==> default_mime(ext) == Some("application/"@ + ext),
        ext == "png"@ || ext == "gif"@ || ext == "jpeg"@ ==> default_mime(ext) == Some("image/"@ + ext)
            && !read_as_text("image/"@ + ext),
        text_extension(ext) ==> (p.mime_for(ext) matches Some(m) && read_as_text(m)),
        default_mime(ext) matches Some(m) ==> registered_top_level(m),
{
    reveal_strlit("txt");
    reveal_strlit("md");
    reveal_strlit("rst");
    reveal_strlit("rs");
    reveal_strlit("py");
    reveal_strlit("js");
    reveal_strlit("ts");
    reveal_strlit("html");
    reveal_strlit("css");
    reveal_strlit("json");
    reveal_strlit("yaml");
    reveal_strlit("yml");
    reveal_strlit("toml");
    reveal_strlit("png");
    reveal_strlit("jpg");
    reveal_strlit("jpeg");
    reveal_strlit("gif");
    reveal_strlit("svg");
    reveal_strlit("text/plain");
    reveal_strlit("text/markdown");
    reveal_strlit("text/x-rst");
    reveal_strlit("text/x-rust");
    reveal_strlit("text/x-python");
    reveal_strlit("text/javascript");
    reveal_strlit("text/typescript");
    reveal_strlit("text/html");
    reveal_strlit("text/css");
    reveal_strlit("application/json");
    reveal_strlit("application/yaml");
    reveal_strlit("application/toml");
    reveal_strlit("image/png");
    reveal_strlit("image/jpeg");
    reveal_strlit("image/gif");
    reveal_strlit("image/svg+xml");
    reveal_strlit("text/");
    reveal_strlit("application/");
    reveal_strlit("image/");
    reveal_strlit("json");
    reveal_strlit("yaml");
    reveal_strlit("xml");
    lemma_default_mime_types_data(ext);
    lemma_default_mime_types_text(ext);
    lemma_default_mime_types_top(ext);
}

/// The type the default table gives each extension it lists.
proof fn lemma_default_mime_values()
    ensures
        default_mime("txt"@) == Some("text/plain"@),
        default_mime("md"@) == Some("text/markdown"@),
        default_mime("rst"@) == Some("text/x-rst"@),
        default_mime("rs"@) == Some("text/x-rust"@),
        default_mime("py"@) == Some("text/x-python"@),
        default_mime("js"@) == Some("text/javascript"@),
        default_mime("ts"@) == Some("text/typescript"@),
        default_mime("html"@) == Some("text/html"@),
        default_mime("css"@) == Some("text/css"@),
        default_mime("json"@) == Some("application/json"@),
        default_mime("yaml"@) == Some("application/yaml"@),
        default_mime("yml"@) == Some("application/yaml"@),
        default_mime("toml"@) == Some("application/toml"@),
        default_mime("png"@) == Some("image/png"@),
        default_mime("jpg"@) == Some("image/jpeg"@),
        default_mime("jpeg"@) == Some("image/jpeg"@),
        default_mime("gif"@) == Some("image/gif"@),
        default_mime("svg"@) == Some("image/svg+xml"@),
{
    reveal_strlit("application/json");
    reveal_strlit("application/toml");
    reveal_strlit("application/yaml");
    reveal_strlit("css");
    reveal_strlit("gif");
    reveal_strlit("html");
    reveal_strlit("image/gif");
    reveal_strlit("image/jpeg");
    reveal_strlit("image/png");
    reveal_strlit("image/svg+xml");
    reveal_strlit("jpeg");
    reveal_strlit("jpg");
    reveal_strlit("js");
    reveal_strlit("json");
    reveal_strlit("md");
    reveal_strlit("png");
    reveal_strlit("py");
    reveal_strlit("rs");
    reveal_strlit("rst");
    reveal_strlit("svg");
    reveal_strlit("text/css");
    reveal_strlit("text/html");
    reveal_strlit("text/javascript");
    reveal_strlit("text/markdown");
    reveal_strlit("text/plain");
    reveal_strlit("text/typescript");
    reveal_strlit("text/x-python");
    reveal_strlit("text/x-rst");
    reveal_strlit("text/x-rust");
    reveal_strlit("toml");
    reveal_strlit("ts");
    reveal_strlit("txt");
    reveal_strlit("yaml");
    reveal_strlit("yml");
    assert(default_mime("txt"@) == Some("text/plain"@)) by {  }
    assert(default_mime("md"@) == Some("text/markdown"@)) by { assert("md"@.len() != "txt"@.len()); }
    assert(default_mime("rst"@) == Some("text/x-rst"@)) by { assert("rst"@[0] != "txt"@[0]); assert("rst"@.len() != "md"@.len()); }
    assert(default_mime("rs"@) == Some("text/x-rust"@)) by { assert("rs"@.len() != "txt"@.len()); assert("rs"@[0] != "md"@[0]); assert("rs"@.len() != "rst"@.len()); }
    assert(default_mime("py"@) == Some("text/x-python"@)) by { assert("py"@.len() != "txt"@.len()); assert("py"@[0] != "md"@[0]); assert("py"@.len() != "rst"@.len()); assert("py"@[0] != "rs"@[0]); }
    assert(default_mime("js"@) == Some("text/javascript"@)) by { assert("js"@.len() != "txt"@.len()); assert("js"@[0] != "md"@[0]); assert("js"@.len() != "rst"@.len()); assert("js"@[0] != "rs"@[0]); assert("js"@[0] != "py"@[0]); }
    assert(default_mime("ts"@) == Some("text/typescript"@)) by { assert("ts"@.len() != "txt"@.len()); assert("ts"@[0] != "md"@[0]); assert("ts"@.len() != "rst"@.len()); assert("ts"@[0] != "rs"@[0]); assert("ts"@[0] != "py"@[0]); assert("ts"@[0] != "js"@[0]); }
    assert(default_mime("html"@) == Some("text/html"@)) by { assert("html"@.len() != "txt"@.len()); assert("html"@.len() != "md"@.len()); assert("html"@.len() != "rst"@.len()); assert("html"@.len() != "rs"@.len()); assert("html"@.len() != "py"@.len()); assert("html"@.len() != "js"@.len()); assert("html"@.len() != "ts"@.len()); }
    assert(default_mime("css"@) == Some("text/css"@)) by { assert("css"@[0] != "txt"@[0]); assert("css"@.len() != "md"@.len()); assert("css"@[0] != "rst"@[0]); assert("css"@.len() != "rs"@.len()); assert("css"@.len() != "py"@.len()); assert("css"@.len() != "js"@.len()); assert("css"@.len() != "ts"@.len()); assert("css"@.len() != "html"@.len()); }
    assert(default_mime("json"@) == Some("application/json"@)) by { assert("json"@.len() != "txt"@.len()); assert("json"@.len() != "md"@.len()); assert("json"@.len() != "rst"@.len()); assert("json"@.len() != "rs"@.len()); assert("json"@.len() != "py"@.len()); assert("json"@.len() != "js"@.len()); assert("json"@.len() != "ts"@.len()); assert("json"@[0] != "html"@[0]); assert("json"@.len() != "css"@.len()); }
    assert(default_mime("yaml"@) == Some("application/yaml"@)) by { assert("yaml"@.len() != "txt"@.len()); assert("yaml"@.len() != "md"@.len()); assert("yaml"@.len() != "rst"@.len()); assert("yaml"@.len() != "rs"@.len()); assert("yaml"@.len() != "py"@.len()); assert("yaml"@.len() != "js"@.len()); assert("yaml"@.len() != "ts"@.len()); assert("yaml"@[0] != "html"@[0]); assert("yaml"@.len() != "css"@.len()); assert("yaml"@[0] != "json"@[0]); }
    assert(default_mime("yml"@) == Some("application/yaml"@)) by { assert("yml"@[0] != "txt"@[0]); assert("yml"@.len() != "md"@.len()); assert("yml"@[0] != "rst"@[0]); assert("yml"@.len() != "rs"@.len()); assert("yml"@.len() != "py"@.len()); assert("yml"@.len() != "js"@.len()); assert("yml"@.len() != "ts"@.len()); assert("yml"@.len() != "html"@.len()); assert("yml"@[0] != "css"@[0]); assert("yml"@.len() != "json"@.len()); assert("yml"@.len() != "yaml"@.len()); }
    assert(default_mime("toml"@) == Some("application/toml"@)) by { assert("toml"@.len() != "txt"@.len()); assert("toml"@.len() != "md"@.len()); assert("toml"@.len() != "rst"@.len()); assert("toml"@.len() != "rs"@.len()); assert("toml"@.len() != "py"@.len()); assert("toml"@.len() != "js"@.len()); assert("toml"@.len() != "ts"@.len()); assert("toml"@[0] != "html"@[0]); assert("toml"@.len() != "css"@.len()); assert("toml"@[0] != "json"@[0]); assert("toml"@[0] != "yaml"@[0]); assert("toml"@.len() != "yml"@.len()); }
    assert(default_mime("png"@) == Some("image/png"@)) by { assert("png"@[0] != "txt"@[0]); assert("png"@.len() != "md"@.len()); assert("png"@[0] != "rst"@[0]); assert("png"@.len() != "rs"@.len()); assert("png"@.len() != "py"@.len()); assert("png"@.len() != "js"@.len()); assert("png"@.len() != "ts"@.len()); assert("png"@.len() != "html"@.len()); assert("png"@[0] != "css"@[0]); assert("png"@.len() != "json"@.len()); assert("png"@.len() != "yaml"@.len()); assert("png"@[0] != "yml"@[0]); assert("png"@.len() != "toml"@.len()); }
    assert(default_mime("jpg"@) == Some("image/jpeg"@)) by { assert("jpg"@[0] != "txt"@[0]); assert("jpg"@.len() != "md"@.len()); assert("jpg"@[0] != "rst"@[0]); assert("jpg"@.len() != "rs"@.len()); assert("jpg"@.len() != "py"@.len()); assert("jpg"@.len() != "js"@.len()); assert("jpg"@.len() != "ts"@.len()); assert("jpg"@.len() != "html"@.len()); assert("jpg"@[0] != "css"@[0]); assert("jpg"@.len() != "json"@.len()); assert("jpg"@.len() != "yaml"@.len()); assert("jpg"@[0] != "yml"@[0]); assert("jpg"@.len() != "toml"@.len()); assert("jpg"@[0] != "png"@[0]); }
    assert(default_mime("jpeg"@) == Some("image/jpeg"@)) by { assert("jpeg"@.len() != "txt"@.len()); assert("jpeg"@.len() != "md"@.len()); assert("jpeg"@.len() != "rst"@.len()); assert("jpeg"@.len() != "rs"@.len()); assert("jpeg"@.len() != "py"@.len()); assert("jpeg"@.len() != "js"@.len()); assert("jpeg"@.len() != "ts"@.len()); assert("jpeg"@[0] != "html"@[0]); assert("jpeg"@.len() != "css"@.len()); assert("jpeg"@[1] != "json"@[1]); assert("jpeg"@[0] != "yaml"@[0]); assert("jpeg"@.len() != "yml"@.len()); assert("jpeg"@[0] != "toml"@[0]); assert("jpeg"@.len() != "png"@.len()); assert("jpeg"@.len() != "jpg"@.len()); }
    assert(default_mime("gif"@) == Some("image/gif"@)) by { assert("gif"@[0] != "txt"@[0]); assert("gif"@.len() != "md"@.len()); assert("gif"@[0] != "rst"@[0]); assert("gif"@.len() != "rs"@.len()); assert("gif"@.len() != "py"@.len()); assert("gif"@.len() != "js"@.len()); assert("gif"@.len() != "ts"@.len()); assert("gif"@.len() != "html"@.len()); assert("gif"@[0] != "css"@[0]); assert("gif"@.len() != "json"@.len()); assert("gif"@.len() != "yaml"@.len()); assert("gif"@[0] != "yml"@[0]); assert("gif"@.len() != "toml"@.len()); assert("gif"@[0] != "png"@[0]); assert("gif"@[0] != "jpg"@[0]); assert("gif"@.len() != "jpeg"@.len()); }
    assert(default_mime("svg"@) == Some("image/svg+xml"@)) by { assert("svg"@[0] != "txt"@[0]); assert("svg"@.len() != "md"@.len()); assert("svg"@[0] != "rst"@[0]); assert("svg"@.len() != "rs"@.len()); assert("svg"@.len() != "py"@.len()); assert("svg"@.len() != "js"@.len()); assert("svg"@.len() != "ts"@.len()); assert("svg"@.len() != "html"@.len()); assert("svg"@[0] != "css"@[0]); assert("svg"@.len() != "json"@.len()); assert("svg"@.len() != "yaml"@.len()); assert("svg"@[0] != "yml"@[0]); assert("svg"@.len() != "toml"@.len()); assert("svg"@[0] != "png"@[0]); assert("svg"@[0] != "jpg"@[0]); assert("svg"@.len() != "jpeg"@.len()); assert("svg"@[0] != "gif"@[0]); }
}

proof fn lemma_default_mime_types_data(ext: Seq<char>)
    ensures
        default_mime("yml"@) == default_mime("yaml"@),
        default_mime("jpg"@) == default_mime("jpeg"@),
        ext == "json"@ || ext == "yaml"@ || ext == "toml"@ ==> default_mime(ext) == Some("application/"@ + ext),
        ext == "png"@ || ext == "gif"@ || ext == "jpeg"@ ==> default_mime(ext) == Some("image/"@ + ext)
            && !read_as_text("image/"@ + ext),
{
    lemma_default_mime_values();
    reveal_strlit("txt");
    reveal_strlit("md");
    reveal_strlit("rst");
    reveal_strlit("rs");
    reveal_strlit("py");
    reveal_strlit("js");
    reveal_strlit("ts");
    reveal_strlit("html");
    reveal_strlit("css");
    reveal_strlit("json");
    reveal_strlit("yaml");
    reveal_strlit("yml");
    reveal_strlit("toml");
    reveal_strlit("png");
    reveal_strlit("jpg");
    reveal_strlit("jpeg");
    reveal_strlit("gif");
    reveal_strlit("svg");
    reveal_strlit("text/plain");
    reveal_strlit("text/markdown");
    reveal_strlit("text/x-rst");
    reveal_strlit("text/x-rust");
    reveal_strlit("text/x-python");
    reveal_strlit("text/javascript");
    reveal_strlit("text/typescript");
    reveal_strlit("text/html");
    reveal_strlit("text/css");
    reveal_strlit("application/json");
    reveal_strlit("application/yaml");
    reveal_strlit("application/toml");
    reveal_strlit("image/png");
    reveal_strlit("image/jpeg");
    reveal_strlit("image/gif");
    reveal_strlit("image/svg+xml");
    reveal_strlit("text/");
    reveal_strlit("application/");
    reveal_strlit("image/");
    reveal_strlit("json");
    reveal_strlit("yaml");
    reveal_strlit("xml");
    assert("application/"@ + "json"@ =~= "application/json"@);
    assert("application/"@ + "yaml"@ =~= "application/yaml"@);
    assert("application/"@ + "toml"@ =~= "application/toml"@);
    assert("image/"@ + "png"@ =~= "image/png"@);
    assert("image/"@ + "gif"@ =~= "image/gif"@);
    assert("image/"@ + "jpeg"@ =~= "image/jpeg"@);
    assert(!has_prefix("image/png"@, "text/"@)) by { assert("image/png"@[0] != "text/"@[0]); }
    assert(!has_prefix("image/gif"@, "text/"@)) by { assert("image/gif"@[0] != "text/"@[0]); }
    assert(!has_prefix("image/jpeg"@, "text/"@)) by { assert("image/jpeg"@[0] != "text/"@[0]); }
    assert(!has_suffix("image/png"@, "json"@)) by { assert("image/png"@[8] != "json"@[3]); }
    assert(!has_suffix("image/gif"@, "json"@)) by { assert("image/gif"@[8] != "json"@[3]); }
    assert(!has_suffix("image/jpeg"@, "json"@)) by { assert("image/jpeg"@[9] != "json"@[3]); }
    assert(!has_suffix("image/png"@, "yaml"@)) by { assert("image/png"@[8] != "yaml"@[3]); }
    assert(!has_suffix("image/gif"@, "yaml"@)) by { assert("image/gif"@[8] != "yaml"@[3]); }
    assert(!has_suffix("image/jpeg"@, "yaml"@)) by { assert("image/jpeg"@[9] != "yaml"@[3]); }
    assert(!has_suffix("image/png"@, "xml"@)) by { assert("image/png"@[8] != "xml"@[2]); }
    assert(!has_suffix("image/gif"@, "xml"@)) by { assert("image/gif"@[8] != "xml"@[2]); }
    assert(!has_suffix("image/jpeg"@, "xml"@)) by { assert("image/jpeg"@[9] != "xml"@[2]); }
}

proof fn lemma_default_mime_types_text(ext: Seq<char>)
    ensures
        text_extension(ext) ==> (default_mime(ext) matches Some(m) && read_as_text(m)),
{
    lemma_default_mime_values();
    reveal_strlit("txt");
    reveal_strlit("md");
    reveal_strlit("rst");
    reveal_strlit("rs");
    reveal_strlit("py");
    reveal_strlit("js");
    reveal_strlit("ts");
    reveal_strlit("html");
    reveal_strlit("css");
    reveal_strlit("json");
    reveal_strlit("yaml");
    reveal_strlit("yml");
    reveal_strlit("toml");
    reveal_strlit("png");
    reveal_strlit("jpg");
    reveal_strlit("jpeg");
    reveal_strlit("gif");
    reveal_strlit("svg");
    reveal_strlit("text/plain");
    reveal_strlit("text/markdown");
    reveal_strlit("text/x-rst");
    reveal_strlit("text/x-rust");
    reveal_strlit("text/x-python");
    reveal_strlit("text/javascript");
    reveal_strlit("text/typescript");
    reveal_strlit("text/html");
    reveal_strlit("text/css");
    reveal_strlit("application/json");
    reveal_strlit("application/yaml");
    reveal_strlit("application/toml");
    reveal_strlit("image/png");
    reveal_strlit("image/jpeg");
    reveal_strlit("image/gif");
    reveal_strlit("image/svg+xml");
    reveal_strlit("text/");
    reveal_strlit("application/");
    reveal_strlit("image/");
    reveal_strlit("json");
    reveal_strlit("yaml");
    reveal_strlit("xml");
    assert(has_prefix("text/plain"@, "text/"@)) by { assert("text/plain"@.subrange(0, 5) =~= "text/"@); }
    assert(has_prefix("text/markdown"@, "text/"@)) by { assert("text/markdown"@.subrange(0, 5) =~= "text/"@); }
    assert(has_prefix("text/x-rst"@, "text/"@)) by { assert("text/x-rst"@.subrange(0, 5) =~= "text/"@); }
    assert(has_prefix("text/x-rust"@, "text/"@)) by { assert("text/x-rust"@.subrange(0, 5) =~= "text/"@); }
    assert(has_prefix("text/x-python"@, "text/"@)) by { assert("text/x-python"@.subrange(0, 5) =~= "text/"@); }
    assert(has_prefix("text/javascript"@, "text/"@)) by { assert("text/javascript"@.subrange(0, 5) =~= "text/"@); }
    assert(has_prefix("text/typescript"@, "text/"@)) by { assert("text/typescript"@.subrange(0, 5) =~= "text/"@); }
    assert(has_prefix("text/html"@, "text/"@)) by { assert("text/html"@.subrange(0, 5) =~= "text/"@); }
    assert(has_prefix("text/css"@, "text/"@)) by { assert("text/css"@.subrange(0, 5) =~= "text/"@); }
    assert(has_suffix("image/svg+xml"@, "xml"@)) by { assert("image/svg+xml"@.subrange(10, 13) =~= "xml"@); }
    assert(has_suffix("application/json"@, "json"@)) by { assert("application/json"@.subrange(12, 16) =~= "json"@); }
    assert(has_suffix("application/yaml"@, "yaml"@)) by { assert("application/yaml"@.subrange(12, 16) =~= "yaml"@); }
}

proof fn lemma_default_mime_types_top(ext: Seq<char>)
    ensures
        default_mime(ext) matches Some(m) ==> registered_top_level(m),
{
    lemma_default_mime_values();
    reveal_strlit("txt");
    reveal_strlit("md");
    reveal_strlit("rst");
    reveal_strlit("rs");
    reveal_strlit("py");
    reveal_strlit("js");
    reveal_strlit("ts");
    reveal_strlit("html");
    reveal_strlit("css");
    reveal_strlit("json");
    reveal_strlit("yaml");
    reveal_strlit("yml");
    reveal_strlit("toml");
    reveal_strlit("png");
    reveal_strlit("jpg");
    reveal_strlit("jpeg");
    reveal_strlit("gif");
    reveal_strlit("svg");
    reveal_strlit("text/plain");
    reveal_strlit("text/markdown");
    reveal_strlit("text/x-rst");
    reveal_strlit("text/x-rust");
    reveal_strlit("text/x-python");
    reveal_strlit("text/javascript");
    reveal_strlit("text/typescript");
    reveal_strlit("text/html");
    reveal_strlit("text/css");
    reveal_strlit("application/json");
    reveal_strlit("application/yaml");
    reveal_strlit("application/toml");
    reveal_strlit("image/png");
    reveal_strlit("image/jpeg");
    reveal_strlit("image/gif");
    reveal_strlit("image/svg+xml");
    reveal_strlit("text/");
    reveal_strlit("application/");
    reveal_strlit("image/");
    reveal_strlit("json");
    reveal_strlit("yaml");
    reveal_strlit("xml");
    assert(has_prefix("text/plain"@, "text/"@)) by { assert("text/plain"@.subrange(0, 5) =~= "text/"@); }
    assert(has_prefix("text/markdown"@, "text/"@)) by { assert("text/markdown"@.subrange(0, 5) =~= "text/"@); }
    assert(has_prefix("text/x-rst"@, "text/"@)) by { assert("text/x-rst"@.subrange(0, 5) =~= "text/"@); }
    assert(has_prefix("text/x-rust"@, "text/"@)) by { assert("text/x-rust"@.subrange(0, 5) =~= "text/"@); }
    assert(has_prefix("text/x-python"@, "text/"@)) by { assert("text/x-python"@.subrange(0, 5) =~= "text/"@); }
    assert(has_prefix("text/javascript"@, "text/"@)) by { assert("text/javascript"@.subrange(0, 5) =~= "text/"@); }
    assert(has_prefix("text/typescript"@, "text/"@)) by { assert("text/typescript"@.subrange(0, 5) =~= "text/"@); }
    assert(has_prefix("text/html"@, "text/"@)) by { assert("text/html"@.subrange(0, 5) =~= "text/"@); }
    assert(has_prefix("text/css"@, "text/"@)) by { assert("text/css"@.subrange(0, 5) =~= "text/"@); }
    assert(has_prefix("application/json"@, "application/"@)) by { assert("application/json"@.subrange(0, 12) =~= "application/"@); }
    assert(has_prefix("application/yaml"@, "application/"@)) by { assert("application/yaml"@.subrange(0, 12) =~= "application/"@); }
    assert(has_prefix("application/toml"@, "application/"@)) by { assert("application/toml"@.subrange(0, 12) =~= "application/"@); }
    assert(has_prefix("image/png"@, "image/"@)) by { assert("image/png"@.subrange(0, 6) =~= "image/"@); }
    assert(has_prefix("image/jpeg"@, "image/"@)) by { assert("image/jpeg"@.subrange(0, 6) =~= "image/"@); }
    assert(has_prefix("image/gif"@, "image/"@)) by { assert("image/gif"@.subrange(0, 6) =~= "image/"@); }
    assert(has_prefix("image/svg+xml"@, "image/"@)) by { assert("image/svg+xml"@.subrange(0, 6) =~= "image/"@); }
}

/// The view of an optional string.
pub open spec fn opt_view(o: Option<String>) -> Option<Seq<char>> {
    match o {
        Some(s) => Some(s@),
        None => None,
    }
}

/// A MIME type whose content is read as text.
pub open spec fn read_as_text(m: Seq<char>) -> bool {
    has_prefix(m, "text/"@) || has_suffix(m, "json"@) || has_suffix(m, "yaml"@) || has_suffix(m, "xml"@)
}

/// The largest file that is read: ten mebibytes.
pub const MAX_READ_SIZE: u64 = 10485760;

/// How a file is read.
#[derive(Debug, Clone, Copy, PartialEq, Eq)]
pub enum ReadKind {
    /// As UTF-8 text.
    Text,
    /// As bytes, sent in base64.
    Binary,
}

/// The first page index for a cursor: the number it holds, or 0.
pub open spec fn page_start(cursor: Option<Seq<char>>) -> int {
    match cursor {
        Some(c) => match parsed_unsigned(c, usize::MAX as nat) {
            Some(n) => n as int,
            None => 0,
        },
        None => 0,
    }
}

/// The cursor that a page hands out, read back, starts the next page where
/// that page ended.
pub proof fn lemma_next_cursor_resumes(end: usize)
    ensures
        page_start(Some(decimal(end as nat))) == end,
{
    lemma_decimal_parses(end as nat, usize::MAX as nat);
}

/// Of the files walked, a provider with extensions set offers exactly those
/// whose extension is among them (none without an extension); a provider
/// without extensions offers every file, in the order walked.
pub proof fn lemma_offered_files(p: FileSystemProvider, files: Seq<Seq<char>>, f: Seq<char>)
    ensures
        p.offered(files).contains(f) <==> (files.contains(f) && p.offers(f)),
        p.extensions() is None ==> p.offered(files) == files,
        p.offers(f) == match p.extensions() {
            None => true,
            Some(exts) => match path_ext(f) {
                Some(e) => exts.contains(e),
                None => false,
            },
        },
{
    broadcast use vstd::seq_lib::group_filter_ensures;
    let pred = |q: Seq<char>| p.offers(q);
    if p.offered(files).contains(f) {
        files.lemma_filter_contains_rev(pred, f);
        let i = choose|i: int| 0 <= i < p.offered(files).len() && p.offered(files)[i] == f;
        files.lemma_filter_pred(pred, i);
    }
    if files.contains(f) && p.offers(f) {
        let i = choose|i: int| 0 <= i < files.len() && files[i] == f;
        files.lemma_filter_contains(pred, i);
    }
    if p.extensions() is None {
        lemma_filter_all(files, pred);
    }
}

/// Filtering by a predicate that holds of everything keeps every item.
proof fn lemma_filter_all(s: Seq<Seq<char>>, pred: spec_fn(Seq<char>) -> bool)
    requires
        forall|x: Seq<char>| #[trigger] pred(x),
    ensures
        s.filter(pred) == s,
    decreases s.len(),
{
    reveal(Seq::filter);
    if s.len() > 0 {
        lemma_filter_all(s.drop_last(), pred);
        assert(s.drop_last().push(s.last()) =~= s);
    } else {
        assert(s.filter(pred) =~= s);
    }
}

/// Offers the files under a directory as resources.
#[derive(Debug)]
pub struct FileSystemProvider {
    base_dir: String,
    include_extensions: Option<Vec<String>>,
    page_size: usize,
}

impl FileSystemProvider {
    /// The directory the provider offers.
    pub closed spec fn base(&self) -> Seq<char> {
        self.base_dir@
    }

    /// The MIME type the provider gives files with an extension: that of the
    /// default table.
    pub open spec fn mime_for(&self, ext: Seq<char>) -> Option<Seq<char>> {
        default_mime(ext)
    }

    /// The extensions that are offered; every file when `None`.
    pub closed spec fn extensions(&self) -> Option<Seq<Seq<char>>> {
        match self.include_extensions {
            Some(v) => Some(crate::text::strings_view(v@)),
            None => None,
        }
    }

    /// The number of resources per page.
    pub closed spec fn page(&self) -> nat {
        self.page_size as nat
    }

    /// A provider for `base_dir` with the default MIME table, every extension
    /// offered, and pages of 100.
    pub fn new(base_dir: &str) -> (r: FileSystemProvider)
        ensures
            r.base() == base_dir@,
            forall|e: Seq<char>| r.mime_for(e) == default_mime(e),
            r.extensions() is None,
            r.page() == 100,
    {
        FileSystemProvider {
            base_dir: owned(base_dir),
            include_extensions: None,
            page_size: 100,
        }
    }

    /// The provider offering only files with the given extensions.
    pub fn with_extensions(self, extensions: Vec<String>) -> (r: FileSystemProvider)
        ensures
            r.extensions() == Some(crate::text::strings_view(extensions@)),
            r.base() == self.base(),
            forall|e: Seq<char>| r.mime_for(e) == self.mime_for(e),
            r.page() == self.page(),
    {
        let mut s = self;
        s.include_extensions = Some(extensions);
        s
    }

    /// The provider with the given page size.
    pub fn with_page_size(self, page_size: usize) -> (r: FileSystemProvider)
        ensures
            r.page() == page_size,
            r.base() == self.base(),
            forall|e: Seq<char>| r.mime_for(e) == self.mime_for(e),
            r.extensions() == self.extensions(),
    {
        let mut s = self;
        s.page_size = page_size;
        s
    }

    /// The MIME type of the default table for an extension.
    pub fn default_mime_type(ext: &str) -> (r: Option<String>)
        ensures
            opt_view(r) == default_mime(ext@),
    {
        if str_eq(ext, "txt") {
            return Some(owned("text/plain"));
        }
        if str_eq(ext, "md") {
            return Some(owned("text/markdown"));
        }
        if str_eq(ext, "rst") {
            return Some(owned("text/x-rst"));
        }
        if str_eq(ext, "rs") {
            return Some(owned("text/x-rust"));
        }
        if str_eq(ext, "py") {
            return Some(owned("text/x-python"));
        }
        if str_eq(ext, "js") {
            return Some(owned("text/javascript"));
        }
        if str_eq(ext, "ts") {
            return Some(owned("text/typescript"));
        }
        if str_eq(ext, "html") {
            return Some(owned("text/html"));
        }
        if str_eq(ext, "css") {
            return Some(owned("text/css"));
        }
        if str_eq(ext, "json") {
            return Some(owned("application/json"));
        }
        if str_eq(ext, "yaml") {
            return Some(owned("application/yaml"));
        }
        if str_eq(ext, "yml") {
            return Some(owned("application/yaml"));
        }
        if str_eq(ext, "toml") {
            return Some(owned("application/toml"));
        }
        if str_eq(ext, "png") {
            return Some(owned("image/png"));
        }
        if str_eq(ext, "jpg") {
            return Some(owned("image/jpeg"));
        }
        if str_eq(ext, "jpeg") {
            return Some(owned("image/jpeg"));
        }
        if str_eq(ext, "gif") {
            return Some(owned("image/gif"));
        }
        if str_eq(ext, "svg") {
            return Some(owned("image/svg+xml"));
        }
        None
    }

    /// Whether the provider handles `uri`: it is a `file:///` URI.
    pub fn can_handle_uri(&self, uri: &str) -> (r: bool)
        ensures
            r == has_prefix(uri@, file_scheme()),
    {
        occurs_at_exec(&chars_of(uri), &chars_of("file:///"), 0)
    }

    /// The directory whose files are offered.
    pub fn base_dir(&self) -> (r: &str)
        ensures
            r@ == self.base(),
    {
        self.base_dir.as_str()
    }

    /// The number of resources on a page.
    pub fn page_size(&self) -> (r: usize)
        ensures
            r == self.page(),
    {
        self.page_size
    }

    /// The URI of the file at `path`.
    pub open spec fn uri_of(&self, path: Seq<char>) -> Seq<char> {
        file_scheme() + replace_all(
            match path_relative(path, self.base()) { Some(p) => p, None => path },
            seq!['\\'], seq!['/'])
    }

    /// The resource that a file of `size` bytes at `path` is listed as: its
    /// URI, its file name (`Unknown` when it has none), its MIME type and size.
    pub fn resource_for(&self, path: &str, size: u64) -> (r: Resource)
        ensures
            r.uri@ == self.uri_of(path@),
            r.name@ == match path_file_name(path@) { Some(n) => n, None => "Unknown"@ },
            r.description is None,
            opt_view(r.mime_type) == match path_ext(path@) { Some(e) => self.mime_for(e), None => None },
            r.size == Some(size),
            r.metadata.entries().len() == 0,
    {
        let uri = self.path_to_uri(path);
        let name = match file_name_of(path) {
            Some(n) => n,
            None => owned("Unknown"),
        };
        Resource {
            uri,
            name,
            description: None,
            mime_type: self.get_mime_type(path),
            size: Some(size),
            metadata: KeyedList::new(),
        }
    }

    /// The URI of a file: `file:///` and its path relative to the base
    /// directory (or the path itself when it is not under it), with
    /// backslashes turned into slashes.
    pub fn path_to_uri(&self, path: &str) -> (r: String)
        ensures
            r@ == self.uri_of(path@),
    {
        let relative = match relative_path(path, self.base_dir.as_str()) {
            Some(p) => p,
            None => owned(path),
        };
        let backslash = vec!['\\'];
        let slash = vec!['/'];
        assert(backslash@ =~= seq!['\\']);
        assert(slash@ =~= seq!['/']);
        let replaced = replace_all_exec(&chars_of(relative.as_str()), &backslash, &slash);
        let tail = string_of(replaced.as_slice());
        concat2("file:///", tail.as_str())
    }

    /// The file a `file:///` URI names, under the base directory.
    pub fn uri_to_path(&self, uri: &str) -> (r: Result<String, ResourceError>)
        ensures
            !has_prefix(uri@, file_scheme()) ==> (r matches Err(ResourceError::InvalidUri(u)) && u@ == uri@),
            has_prefix(uri@, file_scheme()) ==> {
                let full = path_joined(self.base(), strip_all(uri@, file_scheme()));
                if crate::mcp::resources::utils::path_has_base(full, self.base()) {
                    r matches Ok(p) && p@ == full
                } else {
                    r matches Err(ResourceError::SecurityViolation(m)) && m@ == "Path traversal attempt detected"@
                }
            },
    {
        let s = chars_of(uri);
        let prefix = chars_of("file:///");
        proof { reveal_strlit("file:///"); }
        if !occurs_at_exec(&s, &prefix, 0) {
            return Err(ResourceError::InvalidUri(owned(uri)));
        }
        let mut rest = s;
        while occurs_at_exec(&rest, &prefix, 0)
            invariant
                prefix@ == file_scheme(),
                prefix@.len() == 8,
                strip_all(rest@, prefix@) == strip_all(uri@, file_scheme()),
            decreases rest@.len(),
        {
            let mut next: Vec<char> = Vec::new();
            let mut i: usize = prefix.len();
            while i < rest.len()
                invariant
                    prefix@.len() <= i <= rest@.len(),
                    next@ == rest@.subrange(prefix@.len() as int, i as int),
                decreases rest.len() - i,
            {
                next.push(rest[i]);
                i = i + 1;
                assert(next@ =~= rest@.subrange(prefix@.len() as int, i as int));
            }
            rest = next;
        }
        let path_str = string_of(rest.as_slice());
        let full = join_path(self.base_dir.as_str(), path_str.as_str());
        if !crate::mcp::resources::utils::has_base(full.as_str(), self.base_dir.as_str()) {
            return Err(ResourceError::SecurityViolation(owned("Path traversal attempt detected")));
        }
        Ok(full)
    }

    /// The MIME type of a file, by its extension.
    pub fn get_mime_type(&self, path: &str) -> (r: Option<String>)
        ensures
            opt_view(r) == match path_ext(path@) { Some(e) => self.mime_for(e), None => None },
    {
        match extension_of(path) {
            Some(e) => Self::default_mime_type(e.as_str()),
            None => None,
        }
    }

    /// Whether the file `path` is offered: every file when no extensions are
    /// set, otherwise those whose extension is among them.
    pub open spec fn offers(&self, path: Seq<char>) -> bool {
        match self.extensions() {
            None => true,
            Some(exts) => match path_ext(path) {
                Some(e) => exts.contains(e),
                None => false,
            },
        }
    }

    /// The offered files among `files`, in order.
    pub open spec fn offered(&self, files: Seq<Seq<char>>) -> Seq<Seq<char>> {
        files.filter(|p: Seq<char>| self.offers(p))
    }

    /// Whether a file is offered: every file when no extensions are set,
    /// otherwise those whose extension is among them.
    pub fn should_include_file(&self, path: &str) -> (r: bool)
        ensures
            r == self.offers(path@),
    {
        match &self.include_extensions {
            None => true,
            Some(exts) => match extension_of(path) {
                Some(e) => {
                    let mut i: usize = 0;
                    while i < exts.len()
                        invariant
                            i <= exts@.len(),
                            self.extensions() == Some(crate::text::strings_view(exts@)),
                            path_ext(path@) == Some(e@),
                            forall|j: int| 0 <= j < i ==> exts@[j]@ != e@,
                        decreases exts.len() - i,
                    {
                        if str_eq(exts[i].as_str(), e.as_str()) {
                            assert(crate::text::strings_view(exts@)[i as int] == e@);
                            return true;
                        }
                        i = i + 1;
                    }
                    false
                },
                None => false,
            },
        }
    }

    /// The window of a listing of `total` files that a page shows: from the
    /// cursor's index (0 without one) to at most a page further, and the cursor
    /// of the next page when files remain.
    pub fn page_window(&self, cursor: Option<&str>, total: usize) -> (r: (usize, usize, Option<String>))
        requires
            page_start(match cursor { Some(c) => Some(c@), None => None }) <= total,
            page_start(match cursor { Some(c) => Some(c@), None => None }) + self.page() <= usize::MAX,
        ensures
            r.0 == page_start(match cursor { Some(c) => Some(c@), None => None }),
            r.1 == if r.0 + self.page() < total { r.0 + self.page() } else { total as int },
            r.1 < total ==> (r.2 matches Some(n) && n@ == decimal(r.1 as nat)),
            r.1 >= total ==> r.2 is None,
    {
        let start = match cursor {
            Some(c) => match parse_unsigned(c, usize::MAX as u64) {
                Some(n) => n as usize,
                None => 0,
            },
            None => 0,
        };
        let end = if start + self.page_size < total { start + self.page_size } else { total };
        let next = if end < total { Some(u64_to_string(end as u64)) } else { None };
        (start, end, next)
    }

    /// The page of a listing that the cursor asks for: of `files`, every
    /// regular file under the directory in the order walked, those offered,
    /// from the cursor's index (0 without one) to at most a page further; and
    /// the cursor of the next page when offered files remain.
    pub fn page_of_files(&self, files: &Vec<String>, cursor: Option<&str>) -> (r: (Vec<String>, Option<String>))
        requires
            page_start(match cursor { Some(c) => Some(c@), None => None })
                <= self.offered(crate::text::strings_view(files@)).len(),
            page_start(match cursor { Some(c) => Some(c@), None => None }) + self.page() <= usize::MAX,
        ensures
            ({
                let all = self.offered(crate::text::strings_view(files@));
                let start = page_start(match cursor { Some(c) => Some(c@), None => None });
                let end = if start + self.page() < all.len() { start + self.page() } else { all.len() as int };
                &&& crate::text::strings_view(r.0@) == all.subrange(start, end)
                &&& end < all.len() ==> (r.1 matches Some(n) && n@ == decimal(end as nat))
                &&& end >= all.len() ==> r.1 is None
            }),
    {
        let ghost names = crate::text::strings_view(files@);
        let mut kept: Vec<String> = Vec::new();
        let mut k: usize = 0;
        assert(names.subrange(0, 0) =~= Seq::<Seq<char>>::empty());
        assert(crate::text::strings_view(kept@) =~= Seq::<Seq<char>>::empty());
        while k < files.len()
            invariant
                k <= files@.len(),
                names == crate::text::strings_view(files@),
                crate::text::strings_view(kept@) == self.offered(names.subrange(0, k as int)),
            decreases files.len() - k,
        {
            let ghost before = kept@;
            proof {
                assert(names.subrange(0, k + 1).drop_last() =~= names.subrange(0, k as int));
                assert(names.subrange(0, k + 1).last() == names[k as int]);
                reveal(Seq::filter);
            }
            if self.should_include_file(files[k].as_str()) {
                kept.push(files[k].clone());
                assert(crate::text::strings_view(kept@) =~= crate::text::strings_view(before).push(names[k as int]));
            }
            k = k + 1;
        }
        assert(names.subrange(0, files@.len() as int) =~= names);
        let total = kept.len();
        let (start, end, next) = self.page_window(cursor, total);
        let mut page: Vec<String> = Vec::new();
        let mut i: usize = start;
        let ghost all = crate::text::strings_view(kept@);
        assert(crate::text::strings_view(page@) =~= all.subrange(start as int, start as int));
        while i < end
            invariant
                start <= i <= end,
                end <= kept@.len(),
                all == crate::text::strings_view(kept@),
                crate::text::strings_view(page@) == all.subrange(start as int, i as int),
            decreases end - i,
        {
            let ghost before = page@;
            let item = kept[i].clone();
            page.push(item);
            assert(page@ =~= before.push(item));
            assert(crate::text::strings_view(page@) =~= crate::text::strings_view(before).push(item@));
            assert(crate::text::strings_view(page@) =~= all.subrange(start as int, i + 1));
            i = i + 1;
        }
        (page, next)
    }

    /// How a file of `size` bytes and MIME type `mime` is read: not at all
    /// when larger than ten mebibytes; as text when the type is textual; as
    /// bytes otherwise.
    pub fn read_kind(uri: &str, size: u64, mime: &Option<String>) -> (r: Result<ReadKind, ResourceError>)
        ensures
            size > MAX_READ_SIZE ==> (r matches Err(ResourceError::ResourceTooLarge(u)) && u@ == uri@),
            size <= MAX_READ_SIZE ==> r == Ok::<ReadKind, ResourceError>(match *mime {
                Some(m) => if read_as_text(m@) { ReadKind::Text } else { ReadKind::Binary },
                None => ReadKind::Binary,
            }),
    {
        if size > MAX_READ_SIZE {
            return Err(ResourceError::ResourceTooLarge(owned(uri)));
        }
        match mime {
            Some(m) => {
                let c = chars_of(m.as_str());
                if occurs_at_exec(&c, &chars_of("text/"), 0) || ends_with(&c, "json") || ends_with(&c, "yaml") || ends_with(&c, "xml") {
                    Ok(ReadKind::Text)
                } else {
                    Ok(ReadKind::Binary)
                }
            },
            None => Ok(ReadKind::Binary),
        }
    }

    /// The answer to reading a text file.
    pub fn text_response(uri: &str, mime: Option<String>, text: String) -> (r: ResourceReadResponse)
        ensures
            r.contents@.len() == 1,
            r.contents@[0] matches ResourceContents::Text(t) && t.uri@ == uri@ && t.mime_type == mime && t.text == text,
    {
        let mut contents: Vec<ResourceContents> = Vec::new();
        contents.push(ResourceContents::Text(TextContent { uri: owned(uri), mime_type: mime, text }));
        ResourceReadResponse { contents }
    }

    /// The answer to reading a binary file: its bytes in base64.
    pub fn binary_response(uri: &str, mime: Option<String>, bytes: Vec<u8>) -> (r: ResourceReadResponse)
        ensures
            r.contents@.len() == 1,
            r.contents@[0] matches ResourceContents::Binary(b) && b.uri@ == uri@ && b.mime_type == mime
                && b.blob@ == b64_encode(bytes@),
    {
        let mut contents: Vec<ResourceContents> = Vec::new();
        contents.push(ResourceContents::Binary(BinaryContent {
            uri: owned(uri),
            mime_type: mime,
            blob: b64_encode_std(bytes.as_slice()),
        }));
        ResourceReadResponse { contents }
    }
}

/// Whether `s` ends with `suffix`.
fn ends_with(s: &Vec<char>, suffix: &str) -> (r: bool)
    ensures
        r == has_suffix(s@, suffix@),
{
    let p = chars_of(suffix);
    if p.len() > s.len() {
        return false;
    }
    let start = s.len() - p.len();
    let r = occurs_at_exec(s, &p, start);
    assert(s@.subrange(start as int, start + p@.len()) == s@.subrange(s@.len() - p@.len(), s@.len() as int));
    r
}

} // verus!
