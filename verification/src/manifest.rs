//! Reading the dependency manifest emitted by a prior artifact-generation
//! run.
//!
//! The manifest is plain text, one directive per line. Only lines of the
//! form `cargo:rerun-if-changed=<path>` are meaningful: they record a
//! filesystem path the generated artifacts depend on. Every other line is
//! skipped, never an error.

use vstd::prelude::*;

verus! {

/// The directive prefix that marks a changed-dependency line.
pub open spec fn directive_prefix() -> Seq<char> {
    "cargo:rerun-if-changed="@
}

/// Whether `line` is a changed-dependency directive.
pub open spec fn is_directive_line(line: Seq<char>) -> bool {
    line.len() >= directive_prefix().len() && line.subrange(
        0,
        directive_prefix().len() as int,
    ) == directive_prefix()
}

/// The path a directive line records: everything after the prefix.
pub open spec fn directive_path(line: Seq<char>) -> Seq<char> {
    line.subrange(directive_prefix().len() as int, line.len() as int)
}

/// The lines of `s`, split on newline characters, exactly as
/// `str::split('\n')` yields them: `n` newlines give `n + 1` lines, so
/// empty text has one (empty) line and trailing newlines produce empty
/// final lines.
pub open spec fn split_lines(s: Seq<char>) -> Seq<Seq<char>>
    decreases s.len(),
{
    if s.len() == 0 {
        seq![Seq::<char>::empty()]
    } else if s[0] == '\n' {
        seq![Seq::<char>::empty()] + split_lines(s.drop_first())
    } else {
        let rest = split_lines(s.drop_first());
        seq![seq![s[0]] + rest[0]] + rest.drop_first()
    }
}

/// The paths one line contributes: one path for a directive line, none
/// for any other line.
pub open spec fn line_emit(line: Seq<char>) -> Seq<Seq<char>> {
    if is_directive_line(line) {
        seq![directive_path(line)]
    } else {
        Seq::<Seq<char>>::empty()
    }
}

/// The paths a sequence of lines contributes, in order.
pub open spec fn line_paths(lines: Seq<Seq<char>>) -> Seq<Seq<char>>
    decreases lines.len(),
{
    if lines.len() == 0 {
        Seq::<Seq<char>>::empty()
    } else {
        line_emit(lines[0]) + line_paths(lines.drop_first())
    }
}

/// The dependency paths recorded in manifest text `s`: the payload of
/// every changed-dependency directive line, in order of appearance.
pub open spec fn manifest_dep_paths(s: Seq<char>) -> Seq<Seq<char>> {
    line_paths(split_lines(s))
}

proof fn lemma_split_lines_nonempty(s: Seq<char>)
    ensures
        split_lines(s).len() >= 1,
    decreases s.len(),
{
    if s.len() != 0 {
        lemma_split_lines_nonempty(s.drop_first());
    }
}

/// If the first `m` characters of `s` hold no newline and position `m` is
/// the end of the text or a newline, then the first line of `s` is exactly
/// `s[..m]`, and the remaining lines are those of `s[m+1..]`.
proof fn lemma_split_lines_chunk(s: Seq<char>, m: int)
    requires
        0 <= m <= s.len(),
        forall|k: int| 0 <= k < m ==> s[k] != '\n',
        m == s.len() || s[m] == '\n',
    ensures
        m == s.len() ==> split_lines(s) =~~= seq![s],
        m < s.len() ==> split_lines(s) =~~= seq![s.subrange(0, m)] + split_lines(
            s.subrange(m + 1, s.len() as int),
        ),
    decreases s.len(),
{
    lemma_split_lines_nonempty(s);
    if s.len() == 0 {
        assert(split_lines(s) =~~= seq![s]);
    } else if m == 0 {
        if 0 < s.len() {
            assert(s[0] == '\n');
            assert(s.drop_first() =~= s.subrange(1, s.len() as int));
            assert(s.subrange(0, 0) =~= Seq::<char>::empty());
        }
    } else {
        let t = s.drop_first();
        assert(s[0] != '\n');
        lemma_split_lines_nonempty(t);
        lemma_split_lines_chunk(t, m - 1);
        let rest = split_lines(t);
        if m == s.len() {
            assert(rest =~~= seq![t]);
            assert(seq![s[0]] + t =~= s);
            assert(split_lines(s) =~~= seq![s]);
        } else {
            assert(rest =~~= seq![t.subrange(0, m - 1)] + split_lines(
                t.subrange(m, t.len() as int),
            ));
            assert(seq![s[0]] + t.subrange(0, m - 1) =~= s.subrange(0, m));
            assert(t.subrange(m, t.len() as int) =~= s.subrange(m + 1, s.len() as int));
            assert(rest.drop_first() =~~= split_lines(s.subrange(m + 1, s.len() as int)));
            assert(split_lines(s) =~~= seq![s.subrange(0, m)] + split_lines(
                s.subrange(m + 1, s.len() as int),
            ));
        }
    }
}

proof fn lemma_line_paths_cons(line: Seq<char>, rest: Seq<Seq<char>>)
    ensures
        line_paths(seq![line] + rest) == line_emit(line) + line_paths(rest),
{
    let all = seq![line] + rest;
    assert(all[0] == line);
    assert(all.drop_first() =~~= rest);
}

/// Whether `line` begins with the changed-dependency prefix.
fn line_is_directive(line: &str) -> (b: bool)
    ensures
        b == is_directive_line(line@),
{
    let prefix: &str = "cargo:rerun-if-changed=";
    proof {
        reveal_strlit("cargo:rerun-if-changed=");
    }
    let n = line.unicode_len();
    if n < 23 {
        return false;
    }
    let mut k: usize = 0;
    while k < 23
        invariant
            23 <= n == line@.len(),
            k <= 23,
            directive_prefix().len() == 23,
            prefix@ == directive_prefix(),
            forall|j: int| 0 <= j < k ==> line@[j] == directive_prefix()[j],
        decreases 23 - k,
    {
        if line.get_char(k) != prefix.get_char(k) {
            proof {
                assert(!is_directive_line(line@)) by {
                    if is_directive_line(line@) {
                        assert(line@.subrange(0, 23)[k as int] == line@[k as int]);
                    }
                }
            }
            return false;
        }
        k += 1;
    }
    proof {
        assert(line@.subrange(0, 23) =~= directive_prefix());
    }
    true
}

/// The path recorded by a directive line of character length `n`.
fn directive_line_path(line: &str, n: usize) -> (p: String)
    requires
        line@.len() == n,
        is_directive_line(line@),
    ensures
        p@ == directive_path(line@),
{
    proof {
        reveal_strlit("cargo:rerun-if-changed=");
    }
    let r: &str = line.substring_char(23, n);
    r.to_owned()
}

/// Extract the dependency paths recorded in manifest text `s`: the payload
/// of every `cargo:rerun-if-changed=` line, in order. Unrecognized lines
/// are ignored.
pub fn manifest_dependency_paths(s: &str) -> (paths: Vec<String>)
    ensures
        paths.deep_view() == manifest_dep_paths(s@),
{
    let n = s.unicode_len();
    let mut out: Vec<String> = Vec::new();
    let mut i: usize = 0;
    proof {
        assert(s@.skip(0) =~= s@);
        assert(out.deep_view() + line_paths(split_lines(s@)) =~~= line_paths(split_lines(s@)));
    }
    loop
        invariant_except_break
            n == s@.len(),
            i <= n,
            out.deep_view() + line_paths(split_lines(s@.skip(i as int))) == manifest_dep_paths(
                s@,
            ),
        ensures
            out.deep_view() == manifest_dep_paths(s@),
        decreases n - i,
    {
        let mut j: usize = i;
        while j < n && s.get_char(j) != '\n'
            invariant
                n == s@.len(),
                i <= j <= n,
                forall|k: int| i <= k < j ==> s@[k] != '\n',
            decreases n - j,
        {
            j += 1;
        }
        let line: &str = s.substring_char(i, j);
        let ghost t = s@.skip(i as int);
        proof {
            assert(line@ =~= t.subrange(0, j - i));
            assert(forall|k: int| 0 <= k < j - i ==> t[k] == s@[k + i] && t[k] != '\n');
            if j < n {
                assert(t[j - i] == s@[j as int]);
            }
            lemma_split_lines_chunk(t, j - i);
            if j == n {
                assert(line@ =~= t);
                assert(line_paths(split_lines(t)) == line_paths(seq![line@]));
                lemma_line_paths_cons(line@, Seq::<Seq<char>>::empty());
                assert(line_paths(seq![line@]) == line_emit(line@) + line_paths(
                    Seq::<Seq<char>>::empty(),
                ));
                assert(line_emit(line@) + Seq::<Seq<char>>::empty() =~~= line_emit(line@));
            } else {
                assert(t.subrange(j - i + 1, t.len() as int) =~= s@.skip(j + 1));
                lemma_line_paths_cons(line@, split_lines(s@.skip(j + 1)));
                assert(line_paths(split_lines(t)) == line_emit(line@) + line_paths(
                    split_lines(s@.skip(j + 1)),
                ));
            }
        }
        let ghost old_out = out.deep_view();
        if line_is_directive(line) {
            let p = directive_line_path(line, j - i);
            out.push(p);
            proof {
                assert(out.deep_view() =~~= old_out.push(p@));
                assert(old_out.push(p@) =~~= old_out + line_emit(line@));
            }
        } else {
            proof {
                assert(out.deep_view() + line_emit(line@) =~~= out.deep_view());
            }
        }
        if j >= n {
            proof {
                assert(out.deep_view() =~~= old_out + line_emit(line@));
            }
            break;
        }
        i = j + 1;
        proof {
            assert(out.deep_view() + line_paths(split_lines(s@.skip(i as int))) =~~= old_out + (
            line_emit(line@) + line_paths(split_lines(s@.skip(i as int)))));
        }
    }
    out
}

} // verus!
