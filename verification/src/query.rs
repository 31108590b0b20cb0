//! Query construction: prepending a settings header, terminating the
//! query with a semicolon, and appending a default output clause when
//! the last statement does not already select one.

use vstd::prelude::*;
use vstd::string::*;
use crate::settings::{Output, Settings};

verus! {

/// `q` with the settings header prepended, unless the query already
/// opens its own settings block (it starts with '[') or there are no
/// settings to add.
pub open spec fn spec_with_settings(q: Seq<char>, s: Settings) -> Seq<char> {
    if (q.len() > 0 && q[0] == '[') || s.spec_is_empty() {
        q
    } else {
        s.spec_prefix() + ";\n"@ + q
    }
}

/// `q` terminated by a semicolon: unchanged if it already ends with
/// one, otherwise with ';' appended.
pub open spec fn spec_with_semicolon(q: Seq<char>) -> Seq<char> {
    if q.len() > 0 && q[q.len() - 1] == ';' {
        q
    } else {
        q.push(';')
    }
}

/// The characters after the last ';' of `s`, or all of `s` if it holds
/// no ';'.
pub open spec fn spec_tail_statement(s: Seq<char>) -> Seq<char>
    decreases s.len(),
{
    if s.len() == 0 {
        s
    } else if s[s.len() - 1] == ';' {
        Seq::<char>::empty()
    } else {
        spec_tail_statement(s.drop_last()).push(s[s.len() - 1])
    }
}

/// The last statement of a ';'-terminated query: the text between the
/// final ';' and the ';' before it, or the start of the query.
pub open spec fn spec_last_statement(q: Seq<char>) -> Seq<char>
    recommends
        q.len() > 0 && q[q.len() - 1] == ';',
{
    spec_tail_statement(q.drop_last())
}

/// Whether the last statement of a ';'-terminated query starts with
/// `out `, that is, already selects an output level.
pub open spec fn spec_has_out_clause(q: Seq<char>) -> bool {
    let t = spec_last_statement(q);
    t.len() >= 4 && t.subrange(0, 4) == "out "@
}

/// The output level to use when none was requested: `body`.
pub open spec fn spec_out_or_default(output: Option<Output>) -> Output {
    match output {
        Some(o) => o,
        None => Output::Body,
    }
}

/// The fully built query: settings header, terminating semicolon, and,
/// if the last statement selects no output level, an appended
/// `out ...;` clause with the requested (or default) level.
pub open spec fn spec_build_query(q: Seq<char>, s: Settings, output: Option<Output>) -> Seq<
    char,
> {
    let q2 = spec_with_semicolon(spec_with_settings(q, s));
    if spec_has_out_clause(q2) {
        q2
    } else {
        q2 + "\nout "@ + spec_out_or_default(output).spec_keyword() + ";"@
    }
}

/// Terminating a query with a semicolon twice is the same as doing it
/// once: the insertion is idempotent.
pub proof fn lemma_with_semicolon_idempotent(q: Seq<char>)
    ensures
        spec_with_semicolon(spec_with_semicolon(q)) == spec_with_semicolon(q),
{
    let q1 = spec_with_semicolon(q);
    assert(q1.len() > 0 && q1[q1.len() - 1] == ';');
}

/// Every built query ends with a semicolon.
pub proof fn lemma_build_query_ends_with_semicolon(q: Seq<char>, s: Settings, output: Option<
    Output,
>)
    ensures
        spec_build_query(q, s, output).len() > 0,
        spec_build_query(q, s, output)[spec_build_query(q, s, output).len() - 1] == ';',
{
    let q2 = spec_with_semicolon(spec_with_settings(q, s));
    assert(q2.len() > 0 && q2[q2.len() - 1] == ';');
    if !spec_has_out_clause(q2) {
        let r = q2 + "\nout "@ + spec_out_or_default(output).spec_keyword() + ";"@;
        reveal_strlit(";");
        assert(r[r.len() - 1] == ';');
    }
}

proof fn lemma_tail_statement_range(s: Seq<char>, i: int)
    requires
        0 <= i <= s.len(),
        forall|k: int| i <= k < s.len() ==> s[k] != ';',
        i > 0 ==> s[i - 1] == ';',
    ensures
        spec_tail_statement(s) == s.subrange(i, s.len() as int),
    decreases s.len() - i,
{
    if i == s.len() {
        if s.len() == 0 {
            assert(s.subrange(0, 0) =~= s);
        } else {
            assert(s[s.len() - 1] == ';');
            assert(s.subrange(i, s.len() as int) =~= Seq::<char>::empty());
        }
    } else {
        let t = s.drop_last();
        assert(s[s.len() - 1] != ';');
        lemma_tail_statement_range(t, i);
        assert(t.subrange(i, t.len() as int).push(s[s.len() - 1]) =~= s.subrange(
            i,
            s.len() as int,
        ));
    }
}

/// Whether the last statement of `q` starts with `out `.
pub fn has_out_clause(q: &str) -> (r: bool)
    requires
        q@.len() > 0,
        q@[q@.len() - 1] == ';',
    ensures
        r == spec_has_out_clause(q@),
{
    let len = q.unicode_len();
    let mut start: usize = len - 1;
    while start > 0 && q.get_char(start - 1) != ';'
        invariant
            0 <= start <= len - 1,
            len == q@.len(),
            forall|k: int| start <= k < len - 1 ==> q@[k] != ';',
        decreases start,
    {
        start = start - 1;
    }
    proof {
        lemma_tail_statement_range(q@.drop_last(), start as int);
        reveal_strlit("out ");
    }
    let ghost stmt = spec_last_statement(q@);
    proof {
        assert(stmt =~= q@.subrange(start as int, len - 1));
    }
    if len - 1 - start >= 4 {
        let r = q.get_char(start) == 'o' && q.get_char(start + 1) == 'u' && q.get_char(
            start + 2,
        ) == 't' && q.get_char(start + 3) == ' ';
        proof {
            assert(stmt[0] == q@[start as int]);
            assert(stmt[1] == q@[start as int + 1]);
            assert(stmt[2] == q@[start as int + 2]);
            assert(stmt[3] == q@[start as int + 3]);
            if r {
                assert(stmt.subrange(0, 4) =~= "out "@);
            } else {
                assert(stmt.subrange(0, 4) != "out "@) by {
                    reveal_strlit("out ");
                    if stmt.subrange(0, 4) == "out "@ {
                        assert(stmt[0] == stmt.subrange(0, 4)[0]);
                        assert(stmt[1] == stmt.subrange(0, 4)[1]);
                        assert(stmt[2] == stmt.subrange(0, 4)[2]);
                        assert(stmt[3] == stmt.subrange(0, 4)[3]);
                    }
                }
            }
        }
        r
    } else {
        false
    }
}

/// The query with the settings header prepended, unless the query
/// already starts with '[' or the settings are empty.
pub fn apply_settings(query: String, settings: &Settings) -> (r: String)
    ensures
        r@ == spec_with_settings(query@, *settings),
{
    let starts_with_bracket = query.as_str().unicode_len() > 0 && query.as_str().get_char(0)
        == '[';
    if !starts_with_bracket && !settings.is_empty() {
        let mut s = settings.render();
        s.append(";\n");
        let r = s.concat(query.as_str());
        proof {
            assert(r@ =~= spec_with_settings(query@, *settings));
        }
        r
    } else {
        query
    }
}

/// The query terminated by a semicolon; unchanged if it already was.
pub fn ensure_trailing_semicolon(query: String) -> (r: String)
    ensures
        r@ == spec_with_semicolon(query@),
        r@.len() > 0,
        r@[r@.len() - 1] == ';',
{
    let ghost q0 = query@;
    let len = query.as_str().unicode_len();
    if len > 0 && query.as_str().get_char(len - 1) == ';' {
        query
    } else {
        let mut q = query;
        q.append(";");
        proof {
            reveal_strlit(";");
            assert(q@ =~= q0.push(';'));
        }
        q
    }
}

/// The query with an `out ...;` clause for the given output level
/// appended on a new line.
pub fn append_out_clause(query: String, out: Output) -> (r: String)
    ensures
        r@ == query@ + "\nout "@ + out.spec_keyword() + ";"@,
{
    let mut q = query;
    q.append("\nout ");
    q.append(out.keyword());
    q.append(";");
    q
}

/// Builds the query that is sent to the server: settings header,
/// terminating semicolon, and a default `out` clause when the last
/// statement selects no output level.
pub fn build_query(query: String, settings: &Settings, output: Option<Output>) -> (r: String)
    ensures
        r@ == spec_build_query(query@, *settings, output),
{
    let q1 = apply_settings(query, settings);
    let q2 = ensure_trailing_semicolon(q1);
    if has_out_clause(q2.as_str()) {
        q2
    } else {
        let out = match output {
            Some(o) => o,
            None => Output::Body,
        };
        append_out_clause(q2, out)
    }
}

} // verus!
