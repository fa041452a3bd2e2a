use vstd::prelude::*;
use vstd::string::StrSliceExecFns;
use vstd::string::StringExecFns;
use crate::err::RenderError;
use crate::namemap::NameMap;

verus! {

/// How deep `#include` chains may nest before resolution fails.
pub const MAX_INCLUDE_DEPTH: usize = 5;

/// The prefix that opens an include directive.
pub open spec fn include_pattern() -> Seq<char> {
    "#include \""@
}

/// A reason include resolution or shader lookup failed, at the level of the
/// mathematical model.
pub enum ShadeIssue {
    /// The requested shader file is not in the store.
    FileNotFound { name: Seq<char> },
    /// The shader file name carries no recognized stage extension.
    UnknownExtension { name: Seq<char> },
    /// An include chain nested deeper than `MAX_INCLUDE_DEPTH`.
    DepthExceeded { name: Seq<char> },
    /// An included file is not in the store.
    IncludeMissing { name: Seq<char> },
}

/// The name in an include directive, when the line is one: the line must
/// start with `#include "` and end with `"`.
pub open spec fn spec_include_name(line: Seq<char>) -> Option<Seq<char>> {
    if line.len() >= 11 && line.subrange(0, 10) == include_pattern()
        && line[line.len() - 1] == '"' {
        Some(line.subrange(10, line.len() - 1))
    } else {
        None
    }
}

/// The length of the first line of `s`: the index of the first newline, or
/// the whole length if there is none.
pub open spec fn line_len(s: Seq<char>) -> int
    decreases s.len(),
{
    if s.len() == 0 {
        0
    } else if s[0] == '\n' {
        0
    } else {
        1 + line_len(s.skip(1))
    }
}

pub proof fn lemma_line_len_at(s: Seq<char>, k: int)
    requires
        0 <= k <= s.len(),
        forall|j: int| 0 <= j < k ==> s[j] != '\n',
        k < s.len() ==> s[k] == '\n',
    ensures
        line_len(s) == k,
    decreases s.len(),
{
    if s.len() == 0 {
    } else if s[0] == '\n' {
        assert(k == 0);
    } else {
        assert(k > 0);
        let t = s.skip(1);
        assert(forall|j: int| 0 <= j < k - 1 ==> t[j] != '\n');
        assert(k - 1 < t.len() ==> t[k - 1] == '\n');
        lemma_line_len_at(t, k - 1);
    }
}

pub proof fn lemma_line_len_bounds(s: Seq<char>)
    ensures
        0 <= line_len(s) <= s.len(),
    decreases s.len(),
{
    if s.len() > 0 && s[0] != '\n' {
        lemma_line_len_bounds(s.skip(1));
    }
}

/// What is left of `s` after its first line and the newline that ends it.
pub open spec fn after_line(s: Seq<char>) -> Seq<char> {
    if line_len(s) < s.len() {
        s.skip(line_len(s) + 1)
    } else {
        s.skip(line_len(s))
    }
}

/// Resolve every `#include` directive in `s` against `store`, splicing the
/// resolved file in place of the directive line. A directive found while
/// already `depth` levels deep fails once the chain would exceed
/// `MAX_INCLUDE_DEPTH`. Output lines are newline-terminated.
pub open spec fn spec_resolve(store: Map<Seq<char>, String>, s: Seq<char>, depth: int)
    -> Result<Seq<char>, ShadeIssue>
    decreases MAX_INCLUDE_DEPTH + 1 - depth, s.len(),
    via spec_resolve_decreases
{
    if s.len() == 0 {
        Ok(Seq::empty())
    } else {
        let line = s.take(line_len(s));
        let rest = after_line(s);
        match spec_include_name(line) {
            Some(name) => {
                if depth + 1 > MAX_INCLUDE_DEPTH {
                    Err(ShadeIssue::DepthExceeded { name })
                } else if !store.contains_key(name) {
                    Err(ShadeIssue::IncludeMissing { name })
                } else {
                    match spec_resolve(store, store[name]@, depth + 1) {
                        Ok(inc) => match spec_resolve(store, rest, depth) {
                            Ok(tail) => Ok(inc.push('\n') + tail),
                            Err(issue) => Err(issue),
                        },
                        Err(issue) => Err(issue),
                    }
                }
            },
            None => match spec_resolve(store, rest, depth) {
                Ok(tail) => Ok(line.push('\n') + tail),
                Err(issue) => Err(issue),
            },
        }
    }
}

#[via_fn]
proof fn spec_resolve_decreases(store: Map<Seq<char>, String>, s: Seq<char>, depth: int) {
    lemma_line_len_bounds(s);
}

/// How a model-level issue surfaces as a library error.
pub open spec fn issue_matches_error(issue: ShadeIssue, e: RenderError) -> bool {
    match issue {
        ShadeIssue::DepthExceeded { name } =>
            e matches RenderError::IncludeDepthExceeded { name: en } && en@ == name,
        ShadeIssue::IncludeMissing { name } =>
            e matches RenderError::NotFound { name: en } && en@ == name,
        ShadeIssue::FileNotFound { name } =>
            e matches RenderError::NotFound { name: en } && en@ == name,
        ShadeIssue::UnknownExtension { name } =>
            e matches RenderError::UnknownShaderExtension { name: en } && en@ == name,
    }
}

/// How the executable resolution result mirrors the model's result.
pub open spec fn resolve_result_matches(
    sr: Result<Seq<char>, ShadeIssue>,
    r: Result<String, RenderError>,
) -> bool {
    match (sr, r) {
        (Ok(ss), Ok(out)) => out@ == ss,
        (Err(issue), Err(e)) => issue_matches_error(issue, e),
        _ => false,
    }
}

/// Recognize an include directive and extract the included name.
fn parse_include(line: &str) -> (r: Option<String>)
    ensures
        match r {
            Some(name) => spec_include_name(line@) == Some(name@),
            None => spec_include_name(line@) is None,
        },
{
    proof {
        reveal_strlit("#include \"");
    }
    let n = line.unicode_len();
    if n < 11 {
        return None;
    }
    let pat = "#include \"";
    let mut i: usize = 0;
    while i < 10
        invariant
            i <= 10,
            n >= 11,
            n as nat == line@.len(),
            pat@ == include_pattern(),
            pat@.len() == 10,
            forall|j: int| 0 <= j < i ==> line@[j] == include_pattern()[j],
        decreases 10 - i,
    {
        if line.get_char(i) != pat.get_char(i) {
            proof {
                assert(line@.subrange(0, 10)[i as int] != include_pattern()[i as int]);
            }
            return None;
        }
        i += 1;
    }
    if line.get_char(n - 1) != '"' {
        return None;
    }
    let name = line.substring_char(10, n - 1);
    proof {
        assert(line@.subrange(0, 10) =~= include_pattern());
    }
    Some(name.to_owned())
}

/// Resolve the `#include` directives of `source` against `store`, already
/// `depth` levels of inclusion deep, exactly as `spec_resolve` describes.
pub fn resolve_includes(store: &NameMap<String>, source: &str, depth: usize)
    -> (r: Result<String, RenderError>)
    requires
        depth <= MAX_INCLUDE_DEPTH,
    ensures
        resolve_result_matches(spec_resolve(store@, source@, depth as int), r),
    decreases MAX_INCLUDE_DEPTH + 1 - depth, source@.len(),
{
    let n = source.unicode_len();
    if n == 0 {
        return Ok(String::new());
    }
    let mut ll: usize = 0;
    loop
        invariant_except_break
            ll <= n,
            n as nat == source@.len(),
            forall|j: int| 0 <= j < ll ==> source@[j] != '\n',
        ensures
            ll <= n,
            n as nat == source@.len(),
            forall|j: int| 0 <= j < ll ==> source@[j] != '\n',
            ll == n || source@[ll as int] == '\n',
        decreases n - ll,
    {
        if ll == n {
            break;
        }
        if source.get_char(ll) == '\n' {
            break;
        }
        ll += 1;
    }
    proof {
        lemma_line_len_at(source@, ll as int);
    }
    let line = source.substring_char(0, ll);
    let rest = if ll < n {
        source.substring_char(ll + 1, n)
    } else {
        source.substring_char(ll, n)
    };
    proof {
        assert(line@ =~= source@.take(line_len(source@)));
        assert(rest@ =~= after_line(source@));
    }
    match parse_include(line) {
        Some(name) => {
            if depth + 1 > MAX_INCLUDE_DEPTH {
                Err(RenderError::IncludeDepthExceeded { name })
            } else {
                match store.get(name.as_str()) {
                    None => Err(RenderError::NotFound { name }),
                    Some(content) => {
                        let inc = resolve_includes(store, content.as_str(), depth + 1);
                        match inc {
                            Ok(mut out) => {
                                match resolve_includes(store, rest, depth) {
                                    Ok(tail) => {
                                        out.append("\n");
                                        out.append(tail.as_str());
                                        proof {
                                            reveal_strlit("\n");
                                            let sr = spec_resolve(store@, source@, depth as int);
                                            let si = spec_resolve(store@, store@[name@]@, depth + 1);
                                            let st = spec_resolve(store@, after_line(source@), depth as int);
                                            assert(out@ =~= si->Ok_0.push('\n') + st->Ok_0);
                                        }
                                        Ok(out)
                                    },
                                    Err(e) => Err(e),
                                }
                            },
                            Err(e) => Err(e),
                        }
                    },
                }
            }
        },
        None => {
            match resolve_includes(store, rest, depth) {
                Ok(tail) => {
                    let mut out = line.to_owned();
                    out.append("\n");
                    out.append(tail.as_str());
                    proof {
                        reveal_strlit("\n");
                        let st = spec_resolve(store@, after_line(source@), depth as int);
                        assert(out@ =~= source@.take(line_len(source@)).push('\n') + st->Ok_0);
                    }
                    Ok(out)
                },
                Err(e) => Err(e),
            }
        },
    }
}

} // verus!
