//! Declension of a classed pronoun: case by number, under one pronoun class.
use crate::host::{result_view, AnswerModel, InflectionsHost, QueryAnswer};
use crate::inflections::{
    lemma_failed_cell_fails_cells, lemma_same_answers_same_cells, same_answers, all_admissible, cell_forms, cells_of, dimension_values, fetch_cells, get_inflections,
    resolve_dimension_values, DUAL, VOC,
};
use crate::sql::{class_cell_query, create_class_cell_query, get_table_name_from_pattern, table_name_of};
use std::collections::HashMap;
use vstd::prelude::*;
use vstd::string::StringExecFns;

verus! {

/// The batch that asks for the case and number values of classed pronouns.
pub const PARAMETER_VALUES_QUERY: &'static str = "select * from _case_values where name <> \"\" and name <> \"voc\"; select * from _number_values where name <> \"\" and name <> \"dual\";";

/// The error for an answer to `PARAMETER_VALUES_QUERY` that lacks a statement.
pub const SHORT_ANSWER: &'static str = "the dimension values query did not answer every statement";

/// The value lists of the two dimensions, in display order.
pub struct ParameterValues {
    pub c_values: Vec<String>,
    pub n_values: Vec<String>,
}

impl ParameterValues {
    pub open spec fn cases(&self) -> Seq<Seq<char>> {
        self.c_values.deep_view()
    }

    pub open spec fn numbers(&self) -> Seq<Seq<char>> {
        self.n_values.deep_view()
    }

    /// No empty placeholder, no vocative case, no dual number.
    pub open spec fn wf(&self) -> bool {
        &&& all_admissible(self.cases(), VOC@)
        &&& all_admissible(self.numbers(), DUAL@)
    }
}

/// The case values that an answer to `PARAMETER_VALUES_QUERY` holds.
pub open spec fn answer_cases(a: AnswerModel) -> Seq<Seq<char>> {
    dimension_values(a[0], VOC@)
}

/// The number values that an answer to `PARAMETER_VALUES_QUERY` holds.
pub open spec fn answer_numbers(a: AnswerModel) -> Seq<Seq<char>> {
    dimension_values(a[1], DUAL@)
}

/// One row of the table: a case and its cells, number by number.
pub struct CaseViewModel {
    pub name: String,
    pub inflections_list: Vec<Vec<String>>,
}

impl DeepView for CaseViewModel {
    type V = (Seq<char>, Seq<Seq<Seq<char>>>);

    open spec fn deep_view(&self) -> Self::V {
        (self.name@, self.inflections_list.deep_view())
    }
}

/// A finished table over the lists `c` and `n`: one row per case in order,
/// each with a cell per number.
pub open spec fn table_shape(c: Seq<Seq<char>>, n: Seq<Seq<char>>, rows: Seq<CaseViewModel>) -> bool {
    &&& all_admissible(c, VOC@)
    &&& all_admissible(n, DUAL@)
    &&& rows.len() == c.len()
    &&& forall|i: int| 0 <= i < rows.len() ==> (#[trigger] rows[i]).name@ == c[i]
        && rows[i].inflections_list.len() == n.len()
}

/// A finished table over `pvs`.
pub open spec fn table_shaped(pvs: ParameterValues, rows: Seq<CaseViewModel>) -> bool {
    table_shape(pvs.cases(), pvs.numbers(), rows)
}

/// The lookups of the row of `case`, number by number.
pub open spec fn row_queries(pron_type: Seq<char>, table: Seq<char>, case: Seq<char>, n: Seq<Seq<char>>) -> Seq<Seq<char>> {
    Seq::new(n.len(), |k: int| class_cell_query(table, case, pron_type, n[k]))
}

/// The rows of `cases`, in order: the first failure, or each case with the
/// cells of its lookups.
pub open spec fn rows_of<H: InflectionsHost>(host: H, pron_type: Seq<char>, table: Seq<char>, stem: Seq<char>, cases: Seq<Seq<char>>, n: Seq<Seq<char>>) -> Result<Seq<(Seq<char>, Seq<Seq<Seq<char>>>)>, Seq<char>>
    decreases cases.len(),
{
    if cases.len() == 0 {
        Ok(Seq::empty())
    } else {
        match cells_of(host, stem, row_queries(pron_type, table, cases[0], n)) {
            Err(e) => Err(e),
            Ok(cells) => match rows_of(host, pron_type, table, stem, cases.drop_first(), n) {
                Err(e) => Err(e),
                Ok(rest) => Ok(seq![(cases[0], cells)] + rest),
            },
        }
    }
}

/// The rows that the host's answers give for `table`: the failure of the
/// dimension query, an answer lacking a statement, or the rows over the
/// values it holds.
pub open spec fn case_view_models_of<H: InflectionsHost>(host: H, pron_type: Seq<char>, table: Seq<char>, stem: Seq<char>) -> Result<Seq<(Seq<char>, Seq<Seq<Seq<char>>>)>, Seq<char>> {
    match host.sql_answer(PARAMETER_VALUES_QUERY@) {
        Err(e) => Err(e),
        Ok(a) => if a.len() < 2 {
            Err(SHORT_ANSWER@)
        } else {
            rows_of(host, pron_type, table, stem, answer_cases(a), answer_numbers(a))
        },
    }
}

/// The dimension values held by the answer to `PARAMETER_VALUES_QUERY`; an
/// answer with fewer than two statements is an error.
pub fn parameter_values_from_answer(answer: &QueryAnswer) -> (r: Result<ParameterValues, String>)
    ensures
        answer.len() < 2 ==> (r matches Err(m) && m@ == SHORT_ANSWER@),
        answer.len() >= 2 ==> (r matches Ok(pvs) && {
            &&& pvs.cases() == answer_cases(answer.deep_view())
            &&& pvs.numbers() == answer_numbers(answer.deep_view())
            &&& pvs.wf()
        }),
{
    if answer.len() < 2 {
        return Err(String::from_str(SHORT_ANSWER));
    }
    assert(answer.deep_view()[0] == answer[0].deep_view());
    assert(answer.deep_view()[1] == answer[1].deep_view());
    let c_values = resolve_dimension_values(&answer[0], VOC);
    let n_values = resolve_dimension_values(&answer[1], DUAL);
    Ok(ParameterValues { c_values, n_values })
}

/// The lookups of one row, number by number.
pub fn row_cell_queries(pron_type: &str, table_name: &str, case: &str, n_values: &Vec<String>) -> (r: Vec<String>)
    ensures
        r.deep_view() == row_queries(pron_type@, table_name@, case@, n_values.deep_view()),
{
    let mut out: Vec<String> = Vec::new();
    let mut k: usize = 0;
    while k < n_values.len()
        invariant
            k <= n_values.len(),
            out.len() == k,
            forall|j: int| 0 <= j < k ==> (#[trigger] out[j])@ == class_cell_query(
                table_name@,
                case@,
                pron_type@,
                n_values[j]@,
            ),
        decreases n_values.len() - k,
    {
        out.push(create_class_cell_query(table_name, case, pron_type, n_values[k].as_str()));
        k = k + 1;
    }
    assert forall|j: int| 0 <= j < out.len() implies out.deep_view()[j] == row_queries(
        pron_type@,
        table_name@,
        case@,
        n_values.deep_view(),
    )[j] by {
        assert(n_values.deep_view()[j] == n_values[j]@);
    }
    assert(out.deep_view() =~= row_queries(pron_type@, table_name@, case@, n_values.deep_view()));
    out
}

/// The rows of the table over resolved dimension values: one row per case in
/// order, each with its cells number by number. The first failure of the host
/// ends the build and is returned.
pub fn build_case_view_models<H: InflectionsHost>(pron_type: &str, table_name: &str, stem: &str, pvs: &ParameterValues, host: &H) -> (r: Result<Vec<CaseViewModel>, String>)
    requires
        pvs.wf(),
    ensures
        result_view(r) == rows_of(*host, pron_type@, table_name@, stem@, pvs.cases(), pvs.numbers()),
        r matches Ok(rows) ==> table_shaped(*pvs, rows@),
{
    let ghost all = pvs.cases();
    let ghost n = pvs.numbers();
    let mut view_models: Vec<CaseViewModel> = Vec::new();
    let mut i: usize = 0;
    proof {
        assert(all.subrange(0, all.len() as int) =~= all);
        if let Ok(rest) = rows_of(*host, pron_type@, table_name@, stem@, all, n) {
            assert(view_models.deep_view() + rest =~= rest);
        }
    }
    while i < pvs.c_values.len()
        invariant
            i <= pvs.c_values.len(),
            all == pvs.cases(),
            n == pvs.numbers(),
            view_models.len() == i,
            forall|k: int| 0 <= k < i ==> (#[trigger] view_models[k]).name@ == pvs.cases()[k]
                && view_models[k].inflections_list.len() == pvs.numbers().len(),
            rows_of(*host, pron_type@, table_name@, stem@, all, n) == match rows_of(*host, pron_type@, table_name@, stem@, all.subrange(i as int, all.len() as int), n) {
                Err(e) => Err(e),
                Ok(rest) => Ok(view_models.deep_view() + rest),
            },
        decreases pvs.c_values.len() - i,
    {
        let ghost tail = all.subrange(i as int, all.len() as int);
        assert(tail.drop_first() =~= all.subrange(i + 1, all.len() as int));
        assert(tail[0] == pvs.c_values[i as int]@);
        let case = &pvs.c_values[i];
        let queries = row_cell_queries(pron_type, table_name, case.as_str(), &pvs.n_values);
        assert(queries.len() == n.len()) by {
            assert(queries.deep_view().len() == queries.len());
        }
        let inflections_list = match fetch_cells(stem, &queries, host) {
            Ok(cells) => cells,
            Err(e) => return Err(e),
        };
        let ghost before = view_models.deep_view();
        let ghost row = (case@, inflections_list.deep_view());
        view_models.push(CaseViewModel { name: case.clone(), inflections_list });
        assert(view_models.deep_view() =~= before.push(row));
        assert(forall|rest: Seq<(Seq<char>, Seq<Seq<Seq<char>>>)>| before + (seq![row] + rest) =~= view_models.deep_view() + rest);
        i = i + 1;
    }
    assert(all.subrange(i as int, all.len() as int) =~= Seq::<Seq<char>>::empty());
    assert(view_models.deep_view() + Seq::<(Seq<char>, Seq<Seq<Seq<char>>>)>::empty() =~= view_models.deep_view());
    Ok(view_models)
}

/// Resolves the dimension values with the host and builds the rows over them.
/// The first failure of the host ends the build and is returned; no partial
/// table is.
pub fn create_case_view_models<H: InflectionsHost>(pron_type: &str, table_name: &str, stem: &str, host: &H) -> (r: Result<Vec<CaseViewModel>, String>)
    ensures
        result_view(r) == case_view_models_of(*host, pron_type@, table_name@, stem@),
        r is Ok ==> (host.sql_answer(PARAMETER_VALUES_QUERY@) matches Ok(a) && table_shape(answer_cases(a), answer_numbers(a), r->Ok_0@)),
{
    let answer = match host.exec_sql_query(PARAMETER_VALUES_QUERY) {
        Ok(a) => a,
        Err(e) => return Err(e),
    };
    let pvs = match parameter_values_from_answer(&answer) {
        Ok(p) => p,
        Err(e) => return Err(e),
    };
    build_case_view_models(pron_type, table_name, stem, &pvs, host)
}

/// The lookup of the forms used inside compounds: every dimension empty.
pub fn in_comps_query(table_name: &str) -> (r: String)
    ensures
        r@ == class_cell_query(table_name@, seq![], seq![], seq![]),
{
    proof {
        reveal_strlit("");
        assert(""@ =~= Seq::<char>::empty());
    }
    create_class_cell_query(table_name, "", "", "")
}

/// The forms used inside compounds: the display forms of `in_comps_query`,
/// or the failure of the lookup or of a transliteration.
pub fn create_template_view_model_for_in_comps<H: InflectionsHost>(table_name: &str, stem: &str, host: &H) -> (r: Result<Vec<String>, String>)
    ensures
        result_view(r) == cell_forms(*host, stem@, class_cell_query(table_name@, seq![], seq![], seq![])),
{
    let q = in_comps_query(table_name);
    get_inflections(stem, q.as_str(), host)
}

/// Everything that the classed pronoun template shows.
pub struct TemplateViewModel {
    pub pattern: String,
    pub pron_type: String,
    pub stem: String,
    pub view_models: Vec<CaseViewModel>,
    pub in_comps_inflections: Vec<String>,
    pub abbrev_map: HashMap<String, String>,
}

impl DeepView for TemplateViewModel {
    type V = (Seq<char>, Seq<char>, Seq<char>, Seq<(Seq<char>, Seq<Seq<Seq<char>>>)>, Seq<Seq<char>>, Map<Seq<char>, Seq<char>>);

    open spec fn deep_view(&self) -> Self::V {
        (
            self.pattern@,
            self.pron_type@,
            self.stem@,
            self.view_models.deep_view(),
            self.in_comps_inflections.deep_view(),
            self.abbrev_map.deep_view(),
        )
    }
}

/// The view model that the host's answers give: the rows, then the
/// abbreviations, then the forms used inside compounds, then the display
/// stem; the first failure ends it.
pub open spec fn template_of<H: InflectionsHost>(host: H, pron_type: Seq<char>, pattern: Seq<char>, stem: Seq<char>) -> Result<<TemplateViewModel as DeepView>::V, Seq<char>> {
    let table = table_name_of(pattern);
    match case_view_models_of(host, pron_type, table, stem) {
        Err(e) => Err(e),
        Ok(rows) => match host.abbreviations() {
            Err(e) => Err(e),
            Ok(abbrevs) => match cell_forms(host, stem, class_cell_query(table, seq![], seq![], seq![])) {
                Err(e) => Err(e),
                Ok(in_comps) => match host.transliteration(stem) {
                    Err(e) => Err(e),
                    Ok(display_stem) => Ok((pattern, pron_type, display_stem, rows, in_comps, abbrevs)),
                },
            },
        },
    }
}

/// Builds the table of the pronoun `stem` of class `pron_type` under
/// `pattern` and packages it with the transliterated stem, the locale's
/// abbreviations and the forms used inside compounds.
pub fn create_template_view_model<H: InflectionsHost>(pron_type: &str, pattern: &str, stem: &str, host: &H) -> (r: Result<TemplateViewModel, String>)
    ensures
        result_view(r) == template_of(*host, pron_type@, pattern@, stem@),
        r matches Ok(vm) ==> (host.sql_answer(PARAMETER_VALUES_QUERY@) matches Ok(a) && table_shape(answer_cases(a), answer_numbers(a), vm.view_models@)),
{
    let table_name = get_table_name_from_pattern(pattern);
    let view_models = match create_case_view_models(pron_type, table_name.as_str(), stem, host) {
        Ok(t) => t,
        Err(e) => return Err(e),
    };
    let abbrev_map = match host.get_abbreviations() {
        Ok(m) => m,
        Err(e) => return Err(e),
    };
    let in_comps_inflections = match create_template_view_model_for_in_comps(table_name.as_str(), stem, host) {
        Ok(forms) => forms,
        Err(e) => return Err(e),
    };
    let display_stem = match host.transliterate(stem) {
        Ok(s) => s,
        Err(e) => return Err(e),
    };
    Ok(TemplateViewModel {
        pattern: String::from_str(pattern),
        pron_type: String::from_str(pron_type),
        stem: display_stem,
        view_models,
        in_comps_inflections,
        abbrev_map,
    })
}

/// A failed lookup of one cell fails the rows that hold its case.
proof fn lemma_failed_lookup_fails_rows<H: InflectionsHost>(host: H, pron_type: Seq<char>, table: Seq<char>, stem: Seq<char>, cases: Seq<Seq<char>>, n: Seq<Seq<char>>, i: int, k: int)
    requires
        0 <= i < cases.len(),
        0 <= k < n.len(),
        host.sql_answer(row_queries(pron_type, table, cases[i], n)[k]) is Err,
    ensures
        rows_of(host, pron_type, table, stem, cases, n) is Err,
    decreases cases.len(),
{
    if i == 0 {
        lemma_failed_cell_fails_cells(host, stem, row_queries(pron_type, table, cases[0], n), k);
    } else if cells_of(host, stem, row_queries(pron_type, table, cases[0], n)) is Ok {
        assert(cases.drop_first()[i - 1] == cases[i]);
        lemma_failed_lookup_fails_rows(host, pron_type, table, stem, cases.drop_first(), n, i - 1, k);
    }
}

/// A failed dimension query, or a failed lookup of any cell of the table
/// (case `i`, number `k`), fails the table and its view model: no partial
/// table comes out.
pub proof fn lemma_failed_query_fails_table<H: InflectionsHost>(host: H, pron_type: Seq<char>, pattern: Seq<char>, stem: Seq<char>, i: int, k: int)
    requires
        host.sql_answer(PARAMETER_VALUES_QUERY@) is Err
            || (host.sql_answer(PARAMETER_VALUES_QUERY@) matches Ok(a) && a.len() >= 2
                && 0 <= i < answer_cases(a).len() && 0 <= k < answer_numbers(a).len()
                && host.sql_answer(row_queries(pron_type, table_name_of(pattern), answer_cases(a)[i], answer_numbers(a))[k]) is Err),
    ensures
        case_view_models_of(host, pron_type, table_name_of(pattern), stem) is Err,
        template_of(host, pron_type, pattern, stem) is Err,
{
    if let Ok(a) = host.sql_answer(PARAMETER_VALUES_QUERY@) {
        lemma_failed_lookup_fails_rows(host, pron_type, table_name_of(pattern), stem, answer_cases(a), answer_numbers(a), i, k);
    }
}

/// Hosts that answer alike give the same rows.
proof fn lemma_same_answers_same_rows<H: InflectionsHost>(h1: H, h2: H, pron_type: Seq<char>, table: Seq<char>, stem: Seq<char>, cases: Seq<Seq<char>>, n: Seq<Seq<char>>)
    requires
        same_answers(h1, h2),
    ensures
        rows_of(h1, pron_type, table, stem, cases, n) == rows_of(h2, pron_type, table, stem, cases, n),
    decreases cases.len(),
{
    if cases.len() > 0 {
        lemma_same_answers_same_cells(h1, h2, stem, row_queries(pron_type, table, cases[0], n));
        lemma_same_answers_same_rows(h1, h2, pron_type, table, stem, cases.drop_first(), n);
    }
}

/// The view model depends on nothing but what the host answers: two hosts
/// (or one, twice) that answer every query, transliterate every text and
/// hold the abbreviations alike give the same view model, or the same
/// failure.
pub proof fn lemma_view_model_idempotent<H: InflectionsHost>(h1: H, h2: H, pron_type: Seq<char>, pattern: Seq<char>, stem: Seq<char>)
    requires
        same_answers(h1, h2),
        h1.abbreviations() == h2.abbreviations(),
    ensures
        template_of(h1, pron_type, pattern, stem) == template_of(h2, pron_type, pattern, stem),
{
    let table = table_name_of(pattern);
    assert(h1.sql_answer(PARAMETER_VALUES_QUERY@) == h2.sql_answer(PARAMETER_VALUES_QUERY@));
    assert(h1.transliteration(stem) == h2.transliteration(stem));
    lemma_same_answers_same_cells(h1, h2, stem, Seq::empty());
    assert(cell_forms(h1, stem, class_cell_query(table, seq![], seq![], seq![])) == cell_forms(h2, stem, class_cell_query(table, seq![], seq![], seq![])));
    if let Ok(a) = h1.sql_answer(PARAMETER_VALUES_QUERY@) {
        if a.len() >= 2 {
            lemma_same_answers_same_rows(h1, h2, pron_type, table, stem, answer_cases(a), answer_numbers(a));
        }
    }
}

} // verus!
