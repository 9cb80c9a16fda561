//! Declension of the dual pronouns: one cell per case, under the dual pronoun
//! class and the singular number.
use crate::host::{result_view, AnswerModel, InflectionsHost, QueryAnswer};
use crate::inflections::{
    lemma_same_answers_same_cells, same_answers, all_admissible, cell_forms, dimension_values, get_inflections, resolve_dimension_values, VOC,
};
use crate::sql::{class_cell_query, create_class_cell_query, get_table_name_from_pattern, table_name_of};
use vstd::prelude::*;
use vstd::string::StringExecFns;

verus! {

/// The query for the case values of pronoun tables.
pub const CASE_VALUES_QUERY: &'static str = "select * from _case_values where name <> \"\" and name <> \"voc\"";

/// The error for an answer to `CASE_VALUES_QUERY` without a statement.
pub const SHORT_ANSWER: &'static str = "the case values query did not answer";

/// One row of the table: a case and the forms of its single cell.
pub struct CaseViewModel {
    pub name: String,
    pub inflections: Vec<String>,
}

impl DeepView for CaseViewModel {
    type V = (Seq<char>, Seq<Seq<char>>);

    open spec fn deep_view(&self) -> Self::V {
        (self.name@, self.inflections.deep_view())
    }
}

/// The case values that an answer to `CASE_VALUES_QUERY` holds.
pub open spec fn answer_cases(a: AnswerModel) -> Seq<Seq<char>> {
    dimension_values(a[0], VOC@)
}

/// Rows that carry the cases `cases` in order.
pub open spec fn rows_named(rows: Seq<CaseViewModel>, cases: Seq<Seq<char>>) -> bool {
    &&& rows.len() == cases.len()
    &&& forall|i: int| 0 <= i < rows.len() ==> (#[trigger] rows[i]).name@ == cases[i]
}

/// A finished table: its rows carry, in order, case values that are neither
/// empty nor the vocative.
pub open spec fn table_shaped(cases: Seq<Seq<char>>, rows: Seq<CaseViewModel>) -> bool {
    &&& all_admissible(cases, VOC@)
    &&& rows_named(rows, cases)
}

/// The lookup of the single cell of `case`.
pub open spec fn case_query(table: Seq<char>, case: Seq<char>) -> Seq<char> {
    class_cell_query(table, case, "dual"@, "sg"@)
}

/// The rows of `cases`, in order: the first failure, or each case with the
/// forms of its lookup.
pub open spec fn rows_of<H: InflectionsHost>(host: H, table: Seq<char>, stem: Seq<char>, cases: Seq<Seq<char>>) -> Result<Seq<(Seq<char>, Seq<Seq<char>>)>, Seq<char>>
    decreases cases.len(),
{
    if cases.len() == 0 {
        Ok(Seq::empty())
    } else {
        match cell_forms(host, stem, case_query(table, cases[0])) {
            Err(e) => Err(e),
            Ok(forms) => match rows_of(host, table, stem, cases.drop_first()) {
                Err(e) => Err(e),
                Ok(rest) => Ok(seq![(cases[0], forms)] + rest),
            },
        }
    }
}

/// The rows that the host's answers give for `table`: the failure of the case
/// query, an answer without a statement, or the rows of the cases it holds.
pub open spec fn case_view_models_of<H: InflectionsHost>(host: H, table: Seq<char>, stem: Seq<char>) -> Result<Seq<(Seq<char>, Seq<Seq<char>>)>, Seq<char>> {
    match host.sql_answer(CASE_VALUES_QUERY@) {
        Err(e) => Err(e),
        Ok(a) => if a.len() == 0 {
            Err(SHORT_ANSWER@)
        } else {
            rows_of(host, table, stem, answer_cases(a))
        },
    }
}

/// The case values held by the answer to `CASE_VALUES_QUERY`; an answer with
/// no statement is an error.
pub fn case_values_from_answer(answer: &QueryAnswer) -> (r: Result<Vec<String>, String>)
    ensures
        answer.len() == 0 ==> (r matches Err(m) && m@ == SHORT_ANSWER@),
        answer.len() > 0 ==> (r matches Ok(cases) && {
            &&& cases.deep_view() == answer_cases(answer.deep_view())
            &&& all_admissible(cases.deep_view(), VOC@)
        }),
{
    if answer.len() == 0 {
        return Err(String::from_str(SHORT_ANSWER));
    }
    assert(answer.deep_view()[0] == answer[0].deep_view());
    Ok(resolve_dimension_values(&answer[0], VOC))
}

/// The lookup of the single cell of `case`.
pub fn cell_query(table_name: &str, case: &str) -> (r: String)
    ensures
        r@ == case_query(table_name@, case@),
{
    create_class_cell_query(table_name, case, "dual", "sg")
}

/// The rows of the table over resolved case values: one row per case in
/// order, each with the forms of its single cell. The first failure of the
/// host ends the build and is returned.
pub fn build_case_view_models<H: InflectionsHost>(table_name: &str, stem: &str, cases: &Vec<String>, host: &H) -> (r: Result<Vec<CaseViewModel>, String>)
    ensures
        result_view(r) == rows_of(*host, table_name@, stem@, cases.deep_view()),
        r matches Ok(rows) ==> rows_named(rows@, cases.deep_view()),
{
    let ghost all = cases.deep_view();
    let mut view_models: Vec<CaseViewModel> = Vec::new();
    let mut i: usize = 0;
    proof {
        assert(all.subrange(0, all.len() as int) =~= all);
        if let Ok(rest) = rows_of(*host, table_name@, stem@, all) {
            assert(view_models.deep_view() + rest =~= rest);
        }
    }
    while i < cases.len()
        invariant
            i <= cases.len(),
            all == cases.deep_view(),
            view_models.len() == i,
            forall|k: int| 0 <= k < i ==> (#[trigger] view_models[k]).name@ == cases.deep_view()[k],
            rows_of(*host, table_name@, stem@, all) == match rows_of(*host, table_name@, stem@, all.subrange(i as int, all.len() as int)) {
                Err(e) => Err(e),
                Ok(rest) => Ok(view_models.deep_view() + rest),
            },
        decreases cases.len() - i,
    {
        let ghost tail = all.subrange(i as int, all.len() as int);
        assert(tail.drop_first() =~= all.subrange(i + 1, all.len() as int));
        assert(tail[0] == cases[i as int]@);
        let q = cell_query(table_name, cases[i].as_str());
        let inflections = match get_inflections(stem, q.as_str(), host) {
            Ok(forms) => forms,
            Err(e) => return Err(e),
        };
        let ghost before = view_models.deep_view();
        let ghost row = (cases[i as int]@, inflections.deep_view());
        view_models.push(CaseViewModel { name: cases[i].clone(), inflections });
        assert(view_models.deep_view() =~= before.push(row));
        assert(forall|rest: Seq<(Seq<char>, Seq<Seq<char>>)>| before + (seq![row] + rest) =~= view_models.deep_view() + rest);
        i = i + 1;
    }
    assert(all.subrange(i as int, all.len() as int) =~= Seq::<Seq<char>>::empty());
    assert(view_models.deep_view() + Seq::<(Seq<char>, Seq<Seq<char>>)>::empty() =~= view_models.deep_view());
    Ok(view_models)
}

/// Resolves the case values with the host and builds the rows over them. The
/// first failure of the host ends the build and is returned; no partial table
/// is.
pub fn create_case_view_models<H: InflectionsHost>(table_name: &str, stem: &str, host: &H) -> (r: Result<Vec<CaseViewModel>, String>)
    ensures
        result_view(r) == case_view_models_of(*host, table_name@, stem@),
        r is Ok ==> (host.sql_answer(CASE_VALUES_QUERY@) matches Ok(a) && table_shaped(answer_cases(a), r->Ok_0@)),
{
    let answer = match host.exec_sql_query(CASE_VALUES_QUERY) {
        Ok(a) => a,
        Err(e) => return Err(e),
    };
    let cases = match case_values_from_answer(&answer) {
        Ok(c) => c,
        Err(e) => return Err(e),
    };
    build_case_view_models(table_name, stem, &cases, host)
}

/// The lookup of the forms used inside compounds: every dimension empty.
pub fn in_comps_query(table_name: &str) -> (r: String)
    ensures
        r@ == class_cell_query(table_name@, seq![], seq![], seq![]),
{
    proof {
        reveal_strlit("");
        assert(""@ =~= Seq::<char>::empty());
    }
    create_class_cell_query(table_name, "", "", "")
}

/// The forms used inside compounds: the display forms of `in_comps_query`,
/// or the failure of the lookup or of a transliteration.
pub fn create_template_view_model_for_in_comps<H: InflectionsHost>(table_name: &str, stem: &str, host: &H) -> (r: Result<Vec<String>, String>)
    ensures
        result_view(r) == cell_forms(*host, stem@, class_cell_query(table_name@, seq![], seq![], seq![])),
{
    let q = in_comps_query(table_name);
    get_inflections(stem, q.as_str(), host)
}

/// Everything that the dual pronoun template shows.
pub struct TemplateViewModel {
    pub pattern: String,
    pub stem: String,
    pub view_models: Vec<CaseViewModel>,
    pub in_comps_inflections: Vec<String>,
}

impl DeepView for TemplateViewModel {
    type V = (Seq<char>, Seq<char>, Seq<(Seq<char>, Seq<Seq<char>>)>, Seq<Seq<char>>);

    open spec fn deep_view(&self) -> Self::V {
        (self.pattern@, self.stem@, self.view_models.deep_view(), self.in_comps_inflections.deep_view())
    }
}

/// The view model that the host's answers give: the rows, then the forms
/// used inside compounds, then the display stem; the first failure ends it.
pub open spec fn template_of<H: InflectionsHost>(host: H, pattern: Seq<char>, stem: Seq<char>) -> Result<<TemplateViewModel as DeepView>::V, Seq<char>> {
    let table = table_name_of(pattern);
    match case_view_models_of(host, table, stem) {
        Err(e) => Err(e),
        Ok(rows) => match cell_forms(host, stem, class_cell_query(table, seq![], seq![], seq![])) {
            Err(e) => Err(e),
            Ok(in_comps) => match host.transliteration(stem) {
                Err(e) => Err(e),
                Ok(display_stem) => Ok((pattern, display_stem, rows, in_comps)),
            },
        },
    }
}

/// Builds the table of the dual pronoun `stem` under `pattern` and packages it
/// with the transliterated stem.
pub fn create_template_view_model<H: InflectionsHost>(pattern: &str, stem: &str, host: &H) -> (r: Result<TemplateViewModel, String>)
    ensures
        result_view(r) == template_of(*host, pattern@, stem@),
        r matches Ok(vm) ==> (host.sql_answer(CASE_VALUES_QUERY@) matches Ok(a) && table_shaped(answer_cases(a), vm.view_models@)),
{
    let table_name = get_table_name_from_pattern(pattern);
    let view_models = match create_case_view_models(table_name.as_str(), stem, host) {
        Ok(t) => t,
        Err(e) => return Err(e),
    };
    let in_comps_inflections = match create_template_view_model_for_in_comps(table_name.as_str(), stem, host) {
        Ok(forms) => forms,
        Err(e) => return Err(e),
    };
    let display_stem = match host.transliterate(stem) {
        Ok(s) => s,
        Err(e) => return Err(e),
    };
    Ok(TemplateViewModel {
        pattern: String::from_str(pattern),
        stem: display_stem,
        view_models,
        in_comps_inflections,
    })
}

/// A failed lookup of one case fails the rows that hold it.
proof fn lemma_failed_lookup_fails_rows<H: InflectionsHost>(host: H, table: Seq<char>, stem: Seq<char>, cases: Seq<Seq<char>>, i: int)
    requires
        0 <= i < cases.len(),
        host.sql_answer(case_query(table, cases[i])) is Err,
    ensures
        rows_of(host, table, stem, cases) is Err,
    decreases cases.len(),
{
    if i > 0 && cell_forms(host, stem, case_query(table, cases[0])) is Ok {
        assert(cases.drop_first()[i - 1] == cases[i]);
        lemma_failed_lookup_fails_rows(host, table, stem, cases.drop_first(), i - 1);
    }
}

/// A failed case query, or a failed lookup of any resolved case, fails the
/// table and its view model: no partial table comes out.
pub proof fn lemma_failed_query_fails_table<H: InflectionsHost>(host: H, pattern: Seq<char>, stem: Seq<char>, i: int)
    requires
        host.sql_answer(CASE_VALUES_QUERY@) is Err
            || (host.sql_answer(CASE_VALUES_QUERY@) matches Ok(a) && a.len() > 0 && 0 <= i < answer_cases(a).len()
                && host.sql_answer(case_query(table_name_of(pattern), answer_cases(a)[i])) is Err),
    ensures
        case_view_models_of(host, table_name_of(pattern), stem) is Err,
        template_of(host, pattern, stem) is Err,
{
    if let Ok(a) = host.sql_answer(CASE_VALUES_QUERY@) {
        lemma_failed_lookup_fails_rows(host, table_name_of(pattern), stem, answer_cases(a), i);
    }
}

/// Hosts that answer alike give the same rows.
proof fn lemma_same_answers_same_rows<H: InflectionsHost>(h1: H, h2: H, table: Seq<char>, stem: Seq<char>, cases: Seq<Seq<char>>)
    requires
        same_answers(h1, h2),
    ensures
        rows_of(h1, table, stem, cases) == rows_of(h2, table, stem, cases),
    decreases cases.len(),
{
    lemma_same_answers_same_cells(h1, h2, stem, Seq::empty());
    if cases.len() > 0 {
        assert(cell_forms(h1, stem, case_query(table, cases[0])) == cell_forms(h2, stem, case_query(table, cases[0])));
        lemma_same_answers_same_rows(h1, h2, table, stem, cases.drop_first());
    }
}

/// The view model depends on nothing but what the host answers: two hosts
/// (or one, twice) that answer every query and transliterate every text
/// alike give the same view model, or the same failure.
pub proof fn lemma_view_model_idempotent<H: InflectionsHost>(h1: H, h2: H, pattern: Seq<char>, stem: Seq<char>)
    requires
        same_answers(h1, h2),
    ensures
        template_of(h1, pattern, stem) == template_of(h2, pattern, stem),
{
    let table = table_name_of(pattern);
    assert(h1.sql_answer(CASE_VALUES_QUERY@) == h2.sql_answer(CASE_VALUES_QUERY@));
    assert(h1.transliteration(stem) == h2.transliteration(stem));
    lemma_same_answers_same_cells(h1, h2, stem, Seq::empty());
    assert(cell_forms(h1, stem, class_cell_query(table, seq![], seq![], seq![])) == cell_forms(h2, stem, class_cell_query(table, seq![], seq![], seq![])));
    if let Ok(a) = h1.sql_answer(CASE_VALUES_QUERY@) {
        lemma_same_answers_same_rows(h1, h2, table, stem, answer_cases(a));
    }
}

} // verus!
