//! Steps shared by every paradigm variant: resolving dimension values,
//! turning stored endings into forms, reading counts, fetching one cell.
use crate::host::{result_view, InflectionsHost, QueryAnswer};
use vstd::prelude::*;
use vstd::string::StrSliceExecFns;
use vstd::string::StringExecFns;

verus! {

/// The number value that no table of this library shows.
pub const DUAL: &'static str = "dual";

/// The case value that pronoun tables leave out.
pub const VOC: &'static str = "voc";

/// A value may stand in a dimension: it is not the empty placeholder and not
/// the value that the variant excludes.
pub open spec fn admissible(v: Seq<char>, excluded: Seq<char>) -> bool {
    v.len() > 0 && v != excluded
}

/// The admissible fields of one row, in order.
pub open spec fn row_values(row: Seq<Option<Seq<char>>>, excluded: Seq<char>) -> Seq<Seq<char>>
    decreases row.len(),
{
    if row.len() == 0 {
        Seq::empty()
    } else {
        let prev = row_values(row.drop_last(), excluded);
        match row.last() {
            Some(v) => if admissible(v, excluded) {
                prev.push(v)
            } else {
                prev
            },
            None => prev,
        }
    }
}

/// The admissible values of a statement's rows, flattened in the order returned.
pub open spec fn dimension_values(rows: Seq<Seq<Option<Seq<char>>>>, excluded: Seq<char>) -> Seq<Seq<char>>
    decreases rows.len(),
{
    if rows.len() == 0 {
        Seq::empty()
    } else {
        dimension_values(rows.drop_last(), excluded) + row_values(rows.last(), excluded)
    }
}

/// Every value of `vs` is admissible.
pub open spec fn all_admissible(vs: Seq<Seq<char>>, excluded: Seq<char>) -> bool {
    forall|i: int| 0 <= i < vs.len() ==> #[trigger] admissible(vs[i], excluded)
}

/// The forms of one row: the stem followed by each stored ending.
pub open spec fn row_forms(stem: Seq<char>, row: Seq<Option<Seq<char>>>) -> Seq<Seq<char>>
    decreases row.len(),
{
    if row.len() == 0 {
        Seq::empty()
    } else {
        let prev = row_forms(stem, row.drop_last());
        match row.last() {
            Some(e) => prev.push(stem + e),
            None => prev,
        }
    }
}

/// The forms of a statement's rows, in the order returned.
pub open spec fn rows_forms(stem: Seq<char>, rows: Seq<Seq<Option<Seq<char>>>>) -> Seq<Seq<char>>
    decreases rows.len(),
{
    if rows.len() == 0 {
        Seq::empty()
    } else {
        rows_forms(stem, rows.drop_last()) + row_forms(stem, rows.last())
    }
}

/// The forms that the answer to a form lookup holds; none when it has no statement.
pub open spec fn answer_forms(stem: Seq<char>, answer: Seq<Seq<Seq<Option<Seq<char>>>>>) -> Seq<Seq<char>> {
    if answer.len() == 0 {
        Seq::empty()
    } else {
        rows_forms(stem, answer[0])
    }
}

pub open spec fn is_digit(c: char) -> bool {
    '0' <= c <= '9'
}

/// A decimal numeral whose value is above zero.
pub open spec fn numeral_positive(s: Seq<char>) -> bool {
    &&& s.len() > 0
    &&& forall|i: int| 0 <= i < s.len() ==> is_digit(#[trigger] s[i])
    &&& exists|i: int| 0 <= i < s.len() && '1' <= #[trigger] s[i] <= '9'
}

/// The answer to a count holds a count above zero in its first field.
pub open spec fn answer_count_positive(answer: Seq<Seq<Seq<Option<Seq<char>>>>>) -> bool {
    &&& answer.len() > 0
    &&& answer[0].len() > 0
    &&& answer[0][0].len() > 0
    &&& answer[0][0][0] matches Some(t)
    &&& numeral_positive(t)
}

/// Appends the admissible fields of `row` to `out`.
fn push_row_values(out: &mut Vec<String>, row: &Vec<Option<String>>, excluded: &String)
    requires
        all_admissible(old(out).deep_view(), excluded@),
    ensures
        final(out).deep_view() == old(out).deep_view() + row_values(row.deep_view(), excluded@),
        all_admissible(final(out).deep_view(), excluded@),
{
    let ghost start = out.deep_view();
    let mut j: usize = 0;
    while j < row.len()
        invariant
            j <= row.len(),
            out.deep_view() =~= start + row_values(row.deep_view().subrange(0, j as int), excluded@),
            all_admissible(out.deep_view(), excluded@),
        decreases row.len() - j,
    {
        proof {
            assert(row.deep_view().subrange(0, j + 1).drop_last() =~= row.deep_view().subrange(0, j as int));
        }
        let ghost before = out.deep_view();
        match &row[j] {
            Some(v) => {
                assert(row.deep_view()[j as int] == Some(v@));
                let empty = v.as_str().is_empty();
                let same = *v == *excluded;
                if !empty && !same {
                    assert(admissible(v@, excluded@));
                    out.push(v.clone());
                    assert(out.deep_view() =~= before.push(v@));
                }
            },
            None => {
                assert(row.deep_view()[j as int] == None::<Seq<char>>);
            },
        }
        j = j + 1;
    }
    assert(row.deep_view().subrange(0, j as int) =~= row.deep_view());
}

/// The values of a dimension from the rows that named them: absent and empty
/// fields and `excluded` are left out, and the order returned is kept.
pub fn resolve_dimension_values(rows: &Vec<Vec<Option<String>>>, excluded: &str) -> (r: Vec<String>)
    ensures
        r.deep_view() == dimension_values(rows.deep_view(), excluded@),
        all_admissible(r.deep_view(), excluded@),
{
    let ex = String::from_str(excluded);
    let mut out: Vec<String> = Vec::new();
    let mut i: usize = 0;
    while i < rows.len()
        invariant
            i <= rows.len(),
            ex@ == excluded@,
            out.deep_view() =~= dimension_values(rows.deep_view().subrange(0, i as int), excluded@),
            all_admissible(out.deep_view(), excluded@),
        decreases rows.len() - i,
    {
        proof {
            assert(rows.deep_view().subrange(0, i + 1).drop_last() =~= rows.deep_view().subrange(0, i as int));
        }
        push_row_values(&mut out, &rows[i], &ex);
        i = i + 1;
    }
    assert(rows.deep_view().subrange(0, i as int) =~= rows.deep_view());
    out
}

/// Appends the forms of `row` to `out`.
fn push_row_forms(out: &mut Vec<String>, stem: &str, row: &Vec<Option<String>>)
    ensures
        final(out).deep_view() == old(out).deep_view() + row_forms(stem@, row.deep_view()),
{
    let ghost start = out.deep_view();
    let mut j: usize = 0;
    while j < row.len()
        invariant
            j <= row.len(),
            out.deep_view() =~= start + row_forms(stem@, row.deep_view().subrange(0, j as int)),
        decreases row.len() - j,
    {
        proof {
            assert(row.deep_view().subrange(0, j + 1).drop_last() =~= row.deep_view().subrange(0, j as int));
        }
        let ghost before = out.deep_view();
        match &row[j] {
            Some(e) => {
                assert(row.deep_view()[j as int] == Some(e@));
                let form = String::from_str(stem).concat(e.as_str());
                out.push(form);
                assert(out.deep_view() =~= before.push(stem@ + e@));
            },
            None => {
                assert(row.deep_view()[j as int] == None::<Seq<char>>);
            },
        }
        j = j + 1;
    }
    assert(row.deep_view().subrange(0, j as int) =~= row.deep_view());
}

/// The forms that the answer to a form lookup holds: the stem followed by each
/// ending of the first statement's rows, in the order returned.
pub fn forms_from_answer(stem: &str, answer: &QueryAnswer) -> (r: Vec<String>)
    ensures
        r.deep_view() == answer_forms(stem@, answer.deep_view()),
{
    let mut out: Vec<String> = Vec::new();
    if answer.len() == 0 {
        return out;
    }
    let rows = &answer[0];
    assert(answer.deep_view()[0] == rows.deep_view());
    let mut i: usize = 0;
    while i < rows.len()
        invariant
            i <= rows.len(),
            out.deep_view() =~= rows_forms(stem@, rows.deep_view().subrange(0, i as int)),
        decreases rows.len() - i,
    {
        proof {
            assert(rows.deep_view().subrange(0, i + 1).drop_last() =~= rows.deep_view().subrange(0, i as int));
        }
        push_row_forms(&mut out, stem, &rows[i]);
        i = i + 1;
    }
    assert(rows.deep_view().subrange(0, i as int) =~= rows.deep_view());
    out
}

/// Whether `s` is a decimal numeral above zero.
pub fn is_positive_numeral(s: &str) -> (r: bool)
    ensures
        r == numeral_positive(s@),
{
    let n = s.unicode_len();
    let mut digits = true;
    let mut nonzero = false;
    let mut i: usize = 0;
    while i < n
        invariant
            n == s@.len(),
            i <= n,
            digits == forall|k: int| 0 <= k < i ==> is_digit(#[trigger] s@[k]),
            nonzero == exists|k: int| 0 <= k < i && '1' <= #[trigger] s@[k] <= '9',
        decreases n - i,
    {
        let c = s.get_char(i);
        if !('0' <= c && c <= '9') {
            digits = false;
        }
        if '1' <= c && c <= '9' {
            nonzero = true;
        }
        i = i + 1;
    }
    n > 0 && digits && nonzero
}

/// Whether the answer to a count holds a count above zero in its first field.
pub fn count_is_positive(answer: &QueryAnswer) -> (r: bool)
    ensures
        r == answer_count_positive(answer.deep_view()),
{
    if answer.len() == 0 || answer[0].len() == 0 || answer[0][0].len() == 0 {
        return false;
    }
    assert(answer.deep_view()[0][0][0] == answer[0][0][0].deep_view());
    match &answer[0][0][0] {
        Some(t) => is_positive_numeral(t.as_str()),
        None => false,
    }
}

/// What the host makes of `forms` for display, in order: the first failure,
/// or every transliteration.
pub open spec fn transliterations<H: InflectionsHost>(host: H, forms: Seq<Seq<char>>) -> Result<Seq<Seq<char>>, Seq<char>>
    decreases forms.len(),
{
    if forms.len() == 0 {
        Ok(Seq::empty())
    } else {
        match host.transliteration(forms[0]) {
            Err(e) => Err(e),
            Ok(t) => match transliterations(host, forms.drop_first()) {
                Err(e) => Err(e),
                Ok(rest) => Ok(seq![t] + rest),
            },
        }
    }
}

/// The display forms of the cell that `sql` looks up: the failure of the
/// lookup, or the transliterated forms of its answer.
pub open spec fn cell_forms<H: InflectionsHost>(host: H, stem: Seq<char>, sql: Seq<char>) -> Result<Seq<Seq<char>>, Seq<char>> {
    match host.sql_answer(sql) {
        Err(e) => Err(e),
        Ok(a) => transliterations(host, answer_forms(stem, a)),
    }
}

/// The cells that `queries` look up, in order: the first failure, or every
/// cell.
pub open spec fn cells_of<H: InflectionsHost>(host: H, stem: Seq<char>, queries: Seq<Seq<char>>) -> Result<Seq<Seq<Seq<char>>>, Seq<char>>
    decreases queries.len(),
{
    if queries.len() == 0 {
        Ok(Seq::empty())
    } else {
        match cell_forms(host, stem, queries[0]) {
            Err(e) => Err(e),
            Ok(c) => match cells_of(host, stem, queries.drop_first()) {
                Err(e) => Err(e),
                Ok(rest) => Ok(seq![c] + rest),
            },
        }
    }
}

/// Two hosts that answer every query and transliterate every text alike.
pub open spec fn same_answers<H: InflectionsHost>(h1: H, h2: H) -> bool {
    &&& forall|sql: Seq<char>| #[trigger] h1.sql_answer(sql) == h2.sql_answer(sql)
    &&& forall|s: Seq<char>| #[trigger] h1.transliteration(s) == h2.transliteration(s)
}

/// Hosts that answer alike give the same cells.
pub proof fn lemma_same_answers_same_cells<H: InflectionsHost>(h1: H, h2: H, stem: Seq<char>, queries: Seq<Seq<char>>)
    requires
        same_answers(h1, h2),
    ensures
        cells_of(h1, stem, queries) == cells_of(h2, stem, queries),
        forall|sql: Seq<char>| #[trigger] cell_forms(h1, stem, sql) == cell_forms(h2, stem, sql),
    decreases queries.len(),
{
    assert forall|sql: Seq<char>| #[trigger] cell_forms(h1, stem, sql) == cell_forms(h2, stem, sql) by {
        if let Ok(a) = h1.sql_answer(sql) {
            lemma_same_answers_same_transliterations(h1, h2, answer_forms(stem, a));
        }
    }
    if queries.len() > 0 {
        lemma_same_answers_same_cells(h1, h2, stem, queries.drop_first());
    }
}

/// Hosts that transliterate alike give the same transliterations.
proof fn lemma_same_answers_same_transliterations<H: InflectionsHost>(h1: H, h2: H, forms: Seq<Seq<char>>)
    requires
        same_answers(h1, h2),
    ensures
        transliterations(h1, forms) == transliterations(h2, forms),
    decreases forms.len(),
{
    if forms.len() > 0 {
        lemma_same_answers_same_transliterations(h1, h2, forms.drop_first());
    }
}

/// A failed cell fails every list of cells that holds it.
pub proof fn lemma_failed_cell_fails_cells<H: InflectionsHost>(host: H, stem: Seq<char>, queries: Seq<Seq<char>>, k: int)
    requires
        0 <= k < queries.len(),
        cell_forms(host, stem, queries[k]) is Err,
    ensures
        cells_of(host, stem, queries) is Err,
    decreases queries.len(),
{
    if k > 0 {
        if cell_forms(host, stem, queries[0]) is Ok {
            assert(queries.drop_first()[k - 1] == queries[k]);
            lemma_failed_cell_fails_cells(host, stem, queries.drop_first(), k - 1);
        }
    }
}

/// Transliterates every form, in order; the first failure is returned.
pub fn transliterate_all<H: InflectionsHost>(forms: &Vec<String>, host: &H) -> (r: Result<Vec<String>, String>)
    ensures
        result_view(r) == transliterations(*host, forms.deep_view()),
        r matches Ok(out) ==> out.len() == forms.len(),
{
    let ghost all = forms.deep_view();
    let mut out: Vec<String> = Vec::new();
    let mut i: usize = 0;
    proof {
        assert(all.subrange(0, all.len() as int) =~= all);
        if let Ok(rest) = transliterations(*host, all) {
            assert(out.deep_view() + rest =~= rest);
        }
    }
    while i < forms.len()
        invariant
            i <= forms.len(),
            all == forms.deep_view(),
            out.len() == i,
            transliterations(*host, all) == match transliterations(*host, all.subrange(i as int, all.len() as int)) {
                Err(e) => Err(e),
                Ok(rest) => Ok(out.deep_view() + rest),
            },
        decreases forms.len() - i,
    {
        let ghost tail = all.subrange(i as int, all.len() as int);
        assert(tail.drop_first() =~= all.subrange(i + 1, all.len() as int));
        assert(tail[0] == forms[i as int]@);
        match host.transliterate(forms[i].as_str()) {
            Ok(t) => {
                let ghost before = out.deep_view();
                out.push(t);
                assert(out.deep_view() =~= before.push(t@));
                assert(forall|rest: Seq<Seq<char>>| before + (seq![t@] + rest) =~= out.deep_view() + rest);
            },
            Err(e) => return Err(e),
        }
        i = i + 1;
    }
    assert(all.subrange(i as int, all.len() as int) =~= Seq::<Seq<char>>::empty());
    assert(out.deep_view() + Seq::<Seq<char>>::empty() =~= out.deep_view());
    Ok(out)
}

/// The display forms of one cell: the lookup `sql` is run, its endings are
/// joined to the stem and transliterated. A failure of either is returned.
pub fn get_inflections<H: InflectionsHost>(stem: &str, sql: &str, host: &H) -> (r: Result<Vec<String>, String>)
    ensures
        result_view(r) == cell_forms(*host, stem@, sql@),
{
    match host.exec_sql_query(sql) {
        Ok(answer) => {
            let raw = forms_from_answer(stem, &answer);
            transliterate_all(&raw, host)
        },
        Err(e) => Err(e),
    }
}

/// The cells looked up by `queries`, in order; the first failure is returned
/// and no later lookup is made.
pub fn fetch_cells<H: InflectionsHost>(stem: &str, queries: &Vec<String>, host: &H) -> (r: Result<Vec<Vec<String>>, String>)
    ensures
        result_view(r) == cells_of(*host, stem@, queries.deep_view()),
        r matches Ok(cells) ==> cells.len() == queries.len(),
{
    let ghost all = queries.deep_view();
    let mut cells: Vec<Vec<String>> = Vec::new();
    let mut k: usize = 0;
    proof {
        assert(all.subrange(0, all.len() as int) =~= all);
        if let Ok(rest) = cells_of(*host, stem@, all) {
            assert(cells.deep_view() + rest =~= rest);
        }
    }
    while k < queries.len()
        invariant
            k <= queries.len(),
            all == queries.deep_view(),
            cells.len() == k,
            cells_of(*host, stem@, all) == match cells_of(*host, stem@, all.subrange(k as int, all.len() as int)) {
                Err(e) => Err(e),
                Ok(rest) => Ok(cells.deep_view() + rest),
            },
        decreases queries.len() - k,
    {
        let ghost tail = all.subrange(k as int, all.len() as int);
        assert(tail.drop_first() =~= all.subrange(k + 1, all.len() as int));
        assert(tail[0] == queries[k as int]@);
        match get_inflections(stem, queries[k].as_str(), host) {
            Ok(forms) => {
                let ghost before = cells.deep_view();
                cells.push(forms);
                assert(cells.deep_view() =~= before.push(forms.deep_view()));
                assert(forall|rest: Seq<Seq<Seq<char>>>| before + (seq![forms.deep_view()] + rest) =~= cells.deep_view() + rest);
            },
            Err(e) => return Err(e),
        }
        k = k + 1;
    }
    assert(all.subrange(k as int, all.len() as int) =~= Seq::<Seq<char>>::empty());
    assert(cells.deep_view() + Seq::<Seq<Seq<char>>>::empty() =~= cells.deep_view());
    Ok(cells)
}

} // verus!
