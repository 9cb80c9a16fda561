//! Text of the queries sent to the data host.
use vstd::prelude::*;
use vstd::string::StrSliceExecFns;
use vstd::string::StringExecFns;

verus! {

/// `s` written inside a single-quoted SQL literal: every `'` is doubled.
pub open spec fn sql_quoted(s: Seq<char>) -> Seq<char>
    decreases s.len(),
{
    if s.len() == 0 {
        Seq::empty()
    } else if s.last() == '\'' {
        sql_quoted(s.drop_last()) + seq!['\'', '\'']
    } else {
        sql_quoted(s.drop_last()).push(s.last())
    }
}

/// The character that a pattern name holds at a position, as a table name holds it.
pub open spec fn table_char(c: char) -> char {
    if c == ' ' {
        '_'
    } else {
        c
    }
}

/// The name of the table backing a pattern: its spaces become underscores.
pub open spec fn table_name_of(pattern: Seq<char>) -> Seq<char> {
    pattern.map_values(|c: char| table_char(c))
}

/// Appends `v` to `out` as the inside of a single-quoted SQL literal.
pub fn push_quoted(out: &mut String, v: &str)
    ensures
        final(out)@ == old(out)@ + sql_quoted(v@),
{
    let ghost start = out@;
    let n = v.unicode_len();
    let mut i: usize = 0;
    while i < n
        invariant
            n == v@.len(),
            i <= n,
            out@ == start + sql_quoted(v@.subrange(0, i as int)),
        decreases n - i,
    {
        let c = v.get_char(i);
        proof {
            assert(v@.subrange(0, i + 1).drop_last() =~= v@.subrange(0, i as int));
            assert(v@.subrange(0, i + 1).last() == c);
        }
        if c == '\'' {
            out.append("''");
            proof {
                reveal_strlit("''");
                assert(start + sql_quoted(v@.subrange(0, i as int)) + seq!['\'', '\'']
                    =~= start + (sql_quoted(v@.subrange(0, i as int)) + seq!['\'', '\'']));
            }
        } else {
            out.append(v.substring_char(i, i + 1));
            proof {
                assert(v@.subrange(i as int, i + 1) =~= seq![c]);
                assert(start + sql_quoted(v@.subrange(0, i as int)) + seq![c]
                    =~= start + sql_quoted(v@.subrange(0, i as int)).push(c));
            }
        }
        i = i + 1;
    }
    proof {
        assert(v@.subrange(0, n as int) =~= v@);
    }
}

/// The table that holds the forms of `pattern`.
pub fn get_table_name_from_pattern(pattern: &str) -> (r: String)
    ensures
        r@ == table_name_of(pattern@),
{
    let mut out = String::new();
    let n = pattern.unicode_len();
    let mut i: usize = 0;
    while i < n
        invariant
            n == pattern@.len(),
            i <= n,
            out@ =~= pattern@.subrange(0, i as int).map_values(|c: char| table_char(c)),
        decreases n - i,
    {
        let c = pattern.get_char(i);
        if c == ' ' {
            out.append("_");
            proof {
                reveal_strlit("_");
            }
        } else {
            out.append(pattern.substring_char(i, i + 1));
            proof {
                assert(pattern@.subrange(i as int, i + 1) =~= seq![c]);
            }
        }
        i = i + 1;
        assert(out@ =~= pattern@.subrange(0, i as int).map_values(|c: char| table_char(c)));
    }
    proof {
        assert(pattern@.subrange(0, n as int) =~= pattern@);
    }
    out
}

/// Query for the forms of one cell of a gendered table.
pub open spec fn gender_cell_query(table: Seq<char>, case: Seq<char>, gender: Seq<char>, number: Seq<char>) -> Seq<char> {
    "SELECT inflections FROM '"@ + sql_quoted(table) + "' WHERE \"case\" = '"@ + sql_quoted(case)
        + "' AND gender = '"@ + sql_quoted(gender) + "' AND \"number\" = '"@ + sql_quoted(number)
        + "'"@
}

/// Query for the forms of one cell of a pronoun table, keyed by pronoun class.
pub open spec fn class_cell_query(table: Seq<char>, case: Seq<char>, class: Seq<char>, number: Seq<char>) -> Seq<char> {
    "SELECT inflections FROM '"@ + sql_quoted(table) + "' WHERE \"case\" = '"@ + sql_quoted(case)
        + "' AND special_pron_class = '"@ + sql_quoted(class) + "' AND \"number\" = '"@
        + sql_quoted(number) + "'"@
}

/// Query that counts the rows of a table that carry a gender.
pub open spec fn gender_count_query(table: Seq<char>, gender: Seq<char>) -> Seq<char> {
    "SELECT CAST(COUNT(*) AS TEXT) FROM '"@ + sql_quoted(table) + "' WHERE gender = '"@
        + sql_quoted(gender) + "'"@
}

/// Builds the text of `gender_cell_query`.
pub fn create_gender_cell_query(table: &str, case: &str, gender: &str, number: &str) -> (r: String)
    ensures
        r@ == gender_cell_query(table@, case@, gender@, number@),
{
    let mut q = String::from_str("SELECT inflections FROM '");
    push_quoted(&mut q, table);
    q.append("' WHERE \"case\" = '");
    push_quoted(&mut q, case);
    q.append("' AND gender = '");
    push_quoted(&mut q, gender);
    q.append("' AND \"number\" = '");
    push_quoted(&mut q, number);
    q.append("'");
    q
}

/// Builds the text of `class_cell_query`.
pub fn create_class_cell_query(table: &str, case: &str, class: &str, number: &str) -> (r: String)
    ensures
        r@ == class_cell_query(table@, case@, class@, number@),
{
    let mut q = String::from_str("SELECT inflections FROM '");
    push_quoted(&mut q, table);
    q.append("' WHERE \"case\" = '");
    push_quoted(&mut q, case);
    q.append("' AND special_pron_class = '");
    push_quoted(&mut q, class);
    q.append("' AND \"number\" = '");
    push_quoted(&mut q, number);
    q.append("'");
    q
}

/// Builds the text of `gender_count_query`.
pub fn create_gender_count_query(table: &str, gender: &str) -> (r: String)
    ensures
        r@ == gender_count_query(table@, gender@),
{
    let mut q = String::from_str("SELECT CAST(COUNT(*) AS TEXT) FROM '");
    push_quoted(&mut q, table);
    q.append("' WHERE gender = '");
    push_quoted(&mut q, gender);
    q.append("'");
    q
}

} // verus!
