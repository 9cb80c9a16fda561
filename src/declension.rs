//! Plain declension: case by gender by number, with the genders that have no
//! form at all flagged.
use crate::host::{result_view, AnswerModel, InflectionsHost, QueryAnswer};
use crate::inflections::{
    lemma_failed_cell_fails_cells, lemma_same_answers_same_cells, same_answers, all_admissible, answer_count_positive, cell_forms, cells_of, count_is_positive,
    dimension_values, fetch_cells, get_inflections, resolve_dimension_values, DUAL,
};
use crate::sql::{
    create_gender_cell_query, create_gender_count_query, gender_cell_query, gender_count_query,
    get_table_name_from_pattern, table_name_of,
};
use std::collections::HashMap;
use vstd::arithmetic::div_mod::{lemma_fundamental_div_mod, lemma_fundamental_div_mod_converse, lemma_mod_bound};
use vstd::prelude::*;
use vstd::string::StringExecFns;

verus! {

/// The batch that asks for the case, gender and number values.
pub const PARAMETER_VALUES_QUERY: &'static str = "select * from _case_values where name <> \"\"; select * from _gender_values where name <> \"\"; select * from _number_values where name <> \"\" and name <> \"dual\";";

/// The error for an answer to `PARAMETER_VALUES_QUERY` that lacks a statement.
pub const SHORT_ANSWER: &'static str = "the dimension values query did not answer every statement";

/// The error for a table whose cells cannot be counted in a `usize`.
pub const TOO_MANY_CELLS: &'static str = "the table has more cells than can be counted";

/// The value lists of the three dimensions, in display order.
pub struct ParameterValues {
    pub c_values: Vec<String>,
    pub g_values: Vec<String>,
    pub n_values: Vec<String>,
}

/// Dimension lists that plain declension can use: no empty placeholder, and
/// no dual number.
pub open spec fn dimensions_ok(c: Seq<Seq<char>>, g: Seq<Seq<char>>, n: Seq<Seq<char>>) -> bool {
    &&& all_admissible(c, Seq::empty())
    &&& all_admissible(g, Seq::empty())
    &&& all_admissible(n, DUAL@)
}

impl ParameterValues {
    pub open spec fn cases(&self) -> Seq<Seq<char>> {
        self.c_values.deep_view()
    }

    pub open spec fn genders(&self) -> Seq<Seq<char>> {
        self.g_values.deep_view()
    }

    pub open spec fn numbers(&self) -> Seq<Seq<char>> {
        self.n_values.deep_view()
    }

    pub open spec fn wf(&self) -> bool {
        dimensions_ok(self.cases(), self.genders(), self.numbers())
    }
}

/// The case values that an answer to `PARAMETER_VALUES_QUERY` holds.
pub open spec fn answer_cases(a: AnswerModel) -> Seq<Seq<char>> {
    dimension_values(a[0], Seq::empty())
}

/// The gender values that an answer to `PARAMETER_VALUES_QUERY` holds.
pub open spec fn answer_genders(a: AnswerModel) -> Seq<Seq<char>> {
    dimension_values(a[1], Seq::empty())
}

/// The number values that an answer to `PARAMETER_VALUES_QUERY` holds.
pub open spec fn answer_numbers(a: AnswerModel) -> Seq<Seq<char>> {
    dimension_values(a[2], DUAL@)
}

/// One row of the table: a case and its cells, gender by gender and within a
/// gender number by number.
pub struct CaseViewModel {
    pub name: String,
    pub inflections_list: Vec<Vec<String>>,
}

impl DeepView for CaseViewModel {
    type V = (Seq<char>, Seq<Seq<Seq<char>>>);

    open spec fn deep_view(&self) -> Self::V {
        (self.name@, self.inflections_list.deep_view())
    }
}

/// Rows that carry the cases `cases` in order, each with `width` cells.
pub open spec fn rows_shaped(rows: Seq<CaseViewModel>, cases: Seq<Seq<char>>, width: nat) -> bool {
    &&& rows.len() == cases.len()
    &&& forall|i: int| 0 <= i < rows.len() ==> (#[trigger] rows[i]).name@ == cases[i]
        && rows[i].inflections_list.len() == width
}

/// A finished table over the dimension lists `c`, `g`, `n`: one row per case
/// in order, each with a cell per gender and number, and one flag per gender.
pub open spec fn table_shape(c: Seq<Seq<char>>, g: Seq<Seq<char>>, n: Seq<Seq<char>>, rows: Seq<CaseViewModel>, flags: Seq<bool>) -> bool {
    &&& dimensions_ok(c, g, n)
    &&& rows_shaped(rows, c, g.len() * n.len())
    &&& flags.len() == g.len()
}

/// A finished table over `pvs`.
pub open spec fn table_shaped(pvs: ParameterValues, rows: Seq<CaseViewModel>, flags: Seq<bool>) -> bool {
    table_shape(pvs.cases(), pvs.genders(), pvs.numbers(), rows, flags)
}

/// The flag of one gender: the failure of its count, or whether the count is
/// above zero.
pub open spec fn gender_flag<H: InflectionsHost>(host: H, table: Seq<char>, gender: Seq<char>) -> Result<bool, Seq<char>> {
    match host.sql_answer(gender_count_query(table, gender)) {
        Err(e) => Err(e),
        Ok(a) => Ok(answer_count_positive(a)),
    }
}

/// The flags of `genders`, in order: the first failure, or every flag.
pub open spec fn flags_of<H: InflectionsHost>(host: H, table: Seq<char>, genders: Seq<Seq<char>>) -> Result<Seq<bool>, Seq<char>>
    decreases genders.len(),
{
    if genders.len() == 0 {
        Ok(Seq::empty())
    } else {
        match gender_flag(host, table, genders[0]) {
            Err(e) => Err(e),
            Ok(f) => match flags_of(host, table, genders.drop_first()) {
                Err(e) => Err(e),
                Ok(rest) => Ok(seq![f] + rest),
            },
        }
    }
}

/// The lookups of the row of `case`: lookup `k` is for gender `k / |n|` and
/// number `k % |n|`.
pub open spec fn row_queries(table: Seq<char>, case: Seq<char>, g: Seq<Seq<char>>, n: Seq<Seq<char>>) -> Seq<Seq<char>> {
    Seq::new(g.len() * n.len(), |k: int| gender_cell_query(table, case, g[k / n.len() as int], n[k % n.len() as int]))
}

/// The rows of `cases`, in order: the first failure, or each case with the
/// cells of its lookups.
pub open spec fn rows_of<H: InflectionsHost>(host: H, table: Seq<char>, stem: Seq<char>, cases: Seq<Seq<char>>, g: Seq<Seq<char>>, n: Seq<Seq<char>>) -> Result<Seq<(Seq<char>, Seq<Seq<Seq<char>>>)>, Seq<char>>
    decreases cases.len(),
{
    if cases.len() == 0 {
        Ok(Seq::empty())
    } else {
        match cells_of(host, stem, row_queries(table, cases[0], g, n)) {
            Err(e) => Err(e),
            Ok(cells) => match rows_of(host, table, stem, cases.drop_first(), g, n) {
                Err(e) => Err(e),
                Ok(rest) => Ok(seq![(cases[0], cells)] + rest),
            },
        }
    }
}

/// The table over `c`, `g`, `n`: the flags are taken first, then the rows;
/// the first failure ends it. A table whose cells cannot be counted is an
/// error.
pub open spec fn built_table<H: InflectionsHost>(host: H, table: Seq<char>, stem: Seq<char>, c: Seq<Seq<char>>, g: Seq<Seq<char>>, n: Seq<Seq<char>>) -> Result<(Seq<(Seq<char>, Seq<Seq<Seq<char>>>)>, Seq<bool>), Seq<char>> {
    if g.len() * n.len() > usize::MAX {
        Err(TOO_MANY_CELLS@)
    } else {
        match flags_of(host, table, g) {
            Err(e) => Err(e),
            Ok(flags) => match rows_of(host, table, stem, c, g, n) {
                Err(e) => Err(e),
                Ok(rows) => Ok((rows, flags)),
            },
        }
    }
}

/// The table that the host's answers give for `table`: the failure of the
/// dimension query, an answer lacking a statement, or the table over the
/// values it holds.
pub open spec fn case_view_models_of<H: InflectionsHost>(host: H, table: Seq<char>, stem: Seq<char>) -> Result<(Seq<(Seq<char>, Seq<Seq<Seq<char>>>)>, Seq<bool>), Seq<char>> {
    match host.sql_answer(PARAMETER_VALUES_QUERY@) {
        Err(e) => Err(e),
        Ok(a) => if a.len() < 3 {
            Err(SHORT_ANSWER@)
        } else {
            built_table(host, table, stem, answer_cases(a), answer_genders(a), answer_numbers(a))
        },
    }
}

/// The dimension values held by the answer to `PARAMETER_VALUES_QUERY`; an
/// answer with fewer than three statements is an error.
pub fn parameter_values_from_answer(answer: &QueryAnswer) -> (r: Result<ParameterValues, String>)
    ensures
        answer.len() < 3 ==> (r matches Err(m) && m@ == SHORT_ANSWER@),
        answer.len() >= 3 ==> (r matches Ok(pvs) && {
            &&& pvs.cases() == answer_cases(answer.deep_view())
            &&& pvs.genders() == answer_genders(answer.deep_view())
            &&& pvs.numbers() == answer_numbers(answer.deep_view())
            &&& pvs.wf()
        }),
{
    if answer.len() < 3 {
        return Err(String::from_str(SHORT_ANSWER));
    }
    assert(answer.deep_view()[0] == answer[0].deep_view());
    assert(answer.deep_view()[1] == answer[1].deep_view());
    assert(answer.deep_view()[2] == answer[2].deep_view());
    proof {
        reveal_strlit("");
        assert(""@ =~= Seq::<char>::empty());
    }
    let c_values = resolve_dimension_values(&answer[0], "");
    let g_values = resolve_dimension_values(&answer[1], "");
    let n_values = resolve_dimension_values(&answer[2], DUAL);
    Ok(ParameterValues { c_values, g_values, n_values })
}

/// Asks the host for the case, gender and number values of plain declension,
/// with the one batch `PARAMETER_VALUES_QUERY`.
pub fn query_parameter_values<H: InflectionsHost>(host: &H) -> (r: Result<ParameterValues, String>)
    ensures
        match host.sql_answer(PARAMETER_VALUES_QUERY@) {
            Err(e) => r matches Err(m) && m@ == e,
            Ok(a) => if a.len() < 3 {
                r matches Err(m) && m@ == SHORT_ANSWER@
            } else {
                r matches Ok(pvs) && pvs.wf() && pvs.cases() == answer_cases(a)
                    && pvs.genders() == answer_genders(a) && pvs.numbers() == answer_numbers(a)
            },
        },
{
    match host.exec_sql_query(PARAMETER_VALUES_QUERY) {
        Ok(answer) => parameter_values_from_answer(&answer),
        Err(e) => Err(e),
    }
}

/// The lookups of one row, gender by gender and within a gender number by
/// number.
pub fn row_cell_queries(table_name: &str, case: &str, g_values: &Vec<String>, n_values: &Vec<String>) -> (r: Vec<String>)
    requires
        g_values.len() * n_values.len() <= usize::MAX,
    ensures
        r.deep_view() == row_queries(table_name@, case@, g_values.deep_view(), n_values.deep_view()),
{
    let nn = n_values.len();
    let mut out: Vec<String> = Vec::new();
    let mut gi: usize = 0;
    while gi < g_values.len()
        invariant
            gi <= g_values.len(),
            nn == n_values.len(),
            g_values.len() * nn <= usize::MAX,
            out.len() == gi * nn,
            forall|k: int| 0 <= k < out.len() ==> (#[trigger] out[k])@ == gender_cell_query(
                table_name@,
                case@,
                g_values[k / nn as int]@,
                n_values[k % nn as int]@,
            ),
        decreases g_values.len() - gi,
    {
        let mut ni: usize = 0;
        while ni < nn
            invariant
                gi < g_values.len(),
                ni <= nn,
                nn == n_values.len(),
                out.len() == gi * nn + ni,
                forall|k: int| 0 <= k < out.len() ==> (#[trigger] out[k])@ == gender_cell_query(
                    table_name@,
                    case@,
                    g_values[k / nn as int]@,
                    n_values[k % nn as int]@,
                ),
            decreases nn - ni,
        {
            proof {
                lemma_fundamental_div_mod_converse(gi * nn + ni, nn as int, gi as int, ni as int);
            }
            let q = create_gender_cell_query(table_name, case, g_values[gi].as_str(), n_values[ni].as_str());
            out.push(q);
            ni = ni + 1;
        }
        proof {
            assert(gi * nn + nn == (gi + 1) * nn) by (nonlinear_arith);
        }
        gi = gi + 1;
    }
    assert forall|k: int| 0 <= k < out.len() implies out.deep_view()[k] == row_queries(
        table_name@,
        case@,
        g_values.deep_view(),
        n_values.deep_view(),
    )[k] by {
        let gl = g_values.len() as int;
        let nl = nn as int;
        assert(nl > 0) by (nonlinear_arith)
            requires
                0 <= k < gl * nl,
                gl >= 0,
                nl >= 0,
        ;
        lemma_fundamental_div_mod(k, nl);
        lemma_mod_bound(k, nl);
        let q = k / nl;
        let m = k % nl;
        assert(0 <= q < gl) by (nonlinear_arith)
            requires
                k == nl * q + m,
                0 <= m < nl,
                0 <= k < gl * nl,
                nl > 0,
        ;
        assert(g_values.deep_view()[q] == g_values[q]@);
        assert(n_values.deep_view()[m] == n_values[m]@);
    }
    assert(out.deep_view() =~= row_queries(table_name@, case@, g_values.deep_view(), n_values.deep_view()));
    out
}

/// For each gender, whether the table holds any row of it; the first failed
/// count is returned.
pub fn gender_flags<H: InflectionsHost>(table_name: &str, g_values: &Vec<String>, host: &H) -> (r: Result<Vec<bool>, String>)
    ensures
        result_view(r) == flags_of(*host, table_name@, g_values.deep_view()),
        r matches Ok(flags) ==> flags.len() == g_values.len(),
{
    let ghost all = g_values.deep_view();
    let mut flags: Vec<bool> = Vec::new();
    let mut i: usize = 0;
    proof {
        assert(all.subrange(0, all.len() as int) =~= all);
        if let Ok(rest) = flags_of(*host, table_name@, all) {
            assert(flags.deep_view() + rest =~= rest);
        }
    }
    while i < g_values.len()
        invariant
            i <= g_values.len(),
            all == g_values.deep_view(),
            flags.len() == i,
            flags_of(*host, table_name@, all) == match flags_of(*host, table_name@, all.subrange(i as int, all.len() as int)) {
                Err(e) => Err(e),
                Ok(rest) => Ok(flags.deep_view() + rest),
            },
        decreases g_values.len() - i,
    {
        let ghost tail = all.subrange(i as int, all.len() as int);
        assert(tail.drop_first() =~= all.subrange(i + 1, all.len() as int));
        assert(tail[0] == g_values[i as int]@);
        let q = create_gender_count_query(table_name, g_values[i].as_str());
        match host.exec_sql_query(q.as_str()) {
            Ok(answer) => {
                let f = count_is_positive(&answer);
                let ghost before = flags.deep_view();
                flags.push(f);
                assert(flags.deep_view() =~= before.push(f));
                assert(forall|rest: Seq<bool>| before + (seq![f] + rest) =~= flags.deep_view() + rest);
            },
            Err(e) => return Err(e),
        }
        i = i + 1;
    }
    assert(all.subrange(i as int, all.len() as int) =~= Seq::<Seq<char>>::empty());
    assert(flags.deep_view() + Seq::<bool>::empty() =~= flags.deep_view());
    Ok(flags)
}

/// The rows of the table over resolved dimension values: one row per case in
/// order, each with its cells gender by gender and within a gender number by
/// number. The first failure of the host ends the build and is returned.
pub fn build_case_view_models<H: InflectionsHost>(table_name: &str, stem: &str, pvs: &ParameterValues, host: &H) -> (r: Result<Vec<CaseViewModel>, String>)
    requires
        pvs.wf(),
        pvs.genders().len() * pvs.numbers().len() <= usize::MAX,
    ensures
        result_view(r) == rows_of(*host, table_name@, stem@, pvs.cases(), pvs.genders(), pvs.numbers()),
        r matches Ok(rows) ==> rows_shaped(rows@, pvs.cases(), pvs.genders().len() * pvs.numbers().len()),
{
    let ghost width = pvs.g_values.len() * pvs.n_values.len();
    let ghost all = pvs.cases();
    let ghost g = pvs.genders();
    let ghost n = pvs.numbers();
    let mut view_models: Vec<CaseViewModel> = Vec::new();
    let mut i: usize = 0;
    proof {
        assert(all.subrange(0, all.len() as int) =~= all);
        if let Ok(rest) = rows_of(*host, table_name@, stem@, all, g, n) {
            assert(view_models.deep_view() + rest =~= rest);
        }
    }
    while i < pvs.c_values.len()
        invariant
            i <= pvs.c_values.len(),
            all == pvs.cases(),
            g == pvs.genders(),
            n == pvs.numbers(),
            width == pvs.g_values.len() * pvs.n_values.len(),
            width <= usize::MAX,
            view_models.len() == i,
            forall|k: int| 0 <= k < i ==> (#[trigger] view_models[k]).name@ == pvs.cases()[k]
                && view_models[k].inflections_list.len() == width,
            rows_of(*host, table_name@, stem@, all, g, n) == match rows_of(*host, table_name@, stem@, all.subrange(i as int, all.len() as int), g, n) {
                Err(e) => Err(e),
                Ok(rest) => Ok(view_models.deep_view() + rest),
            },
        decreases pvs.c_values.len() - i,
    {
        let ghost tail = all.subrange(i as int, all.len() as int);
        assert(tail.drop_first() =~= all.subrange(i + 1, all.len() as int));
        assert(tail[0] == pvs.c_values[i as int]@);
        let case = &pvs.c_values[i];
        let queries = row_cell_queries(table_name, case.as_str(), &pvs.g_values, &pvs.n_values);
        assert(queries.len() == width) by {
            assert(queries.deep_view().len() == queries.len());
        }
        let inflections_list = match fetch_cells(stem, &queries, host) {
            Ok(cells) => cells,
            Err(e) => return Err(e),
        };
        let ghost before = view_models.deep_view();
        let ghost row = (case@, inflections_list.deep_view());
        view_models.push(CaseViewModel { name: case.clone(), inflections_list });
        assert(view_models.deep_view() =~= before.push(row));
        assert(forall|rest: Seq<(Seq<char>, Seq<Seq<Seq<char>>>)>| before + (seq![row] + rest) =~= view_models.deep_view() + rest);
        i = i + 1;
    }
    assert(all.subrange(i as int, all.len() as int) =~= Seq::<Seq<char>>::empty());
    assert(view_models.deep_view() + Seq::<(Seq<char>, Seq<Seq<Seq<char>>>)>::empty() =~= view_models.deep_view());
    Ok(view_models)
}

/// The table over resolved dimension values: the gender flags, in the order of
/// the genders, and the rows. A table whose cells cannot be counted in a
/// `usize` is an error, found before the host is asked anything.
pub fn build_table<H: InflectionsHost>(table_name: &str, stem: &str, pvs: &ParameterValues, host: &H) -> (r: Result<(Vec<CaseViewModel>, Vec<bool>), String>)
    requires
        pvs.wf(),
    ensures
        result_view(r) == built_table(*host, table_name@, stem@, pvs.cases(), pvs.genders(), pvs.numbers()),
        r is Ok ==> table_shaped(*pvs, r->Ok_0.0@, r->Ok_0.1@),
{
    if pvs.g_values.len().checked_mul(pvs.n_values.len()).is_none() {
        return Err(String::from_str(TOO_MANY_CELLS));
    }
    let g_values_exist = match gender_flags(table_name, &pvs.g_values, host) {
        Ok(flags) => flags,
        Err(e) => return Err(e),
    };
    let view_models = match build_case_view_models(table_name, stem, pvs, host) {
        Ok(rows) => rows,
        Err(e) => return Err(e),
    };
    Ok((view_models, g_values_exist))
}

/// Resolves the dimension values with the host and builds the table over
/// them. The first failure of the host ends the build and is returned; no
/// partial table is.
pub fn create_case_view_models<H: InflectionsHost>(table_name: &str, stem: &str, host: &H) -> (r: Result<(Vec<CaseViewModel>, Vec<bool>), String>)
    ensures
        result_view(r) == case_view_models_of(*host, table_name@, stem@),
        r is Ok ==> (host.sql_answer(PARAMETER_VALUES_QUERY@) matches Ok(a) && table_shape(
            answer_cases(a),
            answer_genders(a),
            answer_numbers(a),
            r->Ok_0.0@,
            r->Ok_0.1@,
        )),
{
    let pvs = match query_parameter_values(host) {
        Ok(pvs) => pvs,
        Err(e) => return Err(e),
    };
    build_table(table_name, stem, &pvs, host)
}

/// The lookup of the forms used inside compounds: every dimension empty.
pub fn in_comps_query(table_name: &str) -> (r: String)
    ensures
        r@ == gender_cell_query(table_name@, seq![], seq![], seq![]),
{
    proof {
        reveal_strlit("");
        assert(""@ =~= Seq::<char>::empty());
    }
    create_gender_cell_query(table_name, "", "", "")
}

/// The forms used inside compounds: the display forms of `in_comps_query`,
/// or the failure of the lookup or of a transliteration.
pub fn create_template_view_model_for_in_comps<H: InflectionsHost>(table_name: &str, stem: &str, host: &H) -> (r: Result<Vec<String>, String>)
    ensures
        result_view(r) == cell_forms(*host, stem@, gender_cell_query(table_name@, seq![], seq![], seq![])),
{
    let q = in_comps_query(table_name);
    get_inflections(stem, q.as_str(), host)
}

/// Everything that the declension template shows.
pub struct TemplateViewModel {
    pub pattern: String,
    pub stem: String,
    pub g_values_exist: Vec<bool>,
    pub view_models: Vec<CaseViewModel>,
    pub in_comps_inflections: Vec<String>,
    pub abbrev_map: HashMap<String, String>,
}

impl DeepView for TemplateViewModel {
    type V = (Seq<char>, Seq<char>, Seq<bool>, Seq<(Seq<char>, Seq<Seq<Seq<char>>>)>, Seq<Seq<char>>, Map<Seq<char>, Seq<char>>);

    open spec fn deep_view(&self) -> Self::V {
        (
            self.pattern@,
            self.stem@,
            self.g_values_exist.deep_view(),
            self.view_models.deep_view(),
            self.in_comps_inflections.deep_view(),
            self.abbrev_map.deep_view(),
        )
    }
}

/// The view model that the host's answers give: the table, then the
/// abbreviations, then the forms used inside compounds, then the display
/// stem; the first failure ends it.
pub open spec fn template_of<H: InflectionsHost>(host: H, pattern: Seq<char>, stem: Seq<char>) -> Result<<TemplateViewModel as DeepView>::V, Seq<char>> {
    let table = table_name_of(pattern);
    match case_view_models_of(host, table, stem) {
        Err(e) => Err(e),
        Ok((rows, flags)) => match host.abbreviations() {
            Err(e) => Err(e),
            Ok(abbrevs) => match cell_forms(host, stem, gender_cell_query(table, seq![], seq![], seq![])) {
                Err(e) => Err(e),
                Ok(in_comps) => match host.transliteration(stem) {
                    Err(e) => Err(e),
                    Ok(display_stem) => Ok((pattern, display_stem, flags, rows, in_comps, abbrevs)),
                },
            },
        },
    }
}

/// Builds the declension table of `stem` under `pattern` and packages it with
/// the transliterated stem and the locale's abbreviations.
pub fn create_template_view_model<H: InflectionsHost>(pattern: &str, stem: &str, host: &H) -> (r: Result<TemplateViewModel, String>)
    ensures
        result_view(r) == template_of(*host, pattern@, stem@),
        r matches Ok(vm) ==> (host.sql_answer(PARAMETER_VALUES_QUERY@) matches Ok(a) && table_shape(
            answer_cases(a),
            answer_genders(a),
            answer_numbers(a),
            vm.view_models@,
            vm.g_values_exist@,
        )),
{
    let table_name = get_table_name_from_pattern(pattern);
    let table = match create_case_view_models(table_name.as_str(), stem, host) {
        Ok(t) => t,
        Err(e) => return Err(e),
    };
    let (view_models, g_values_exist) = table;
    let abbrev_map = match host.get_abbreviations() {
        Ok(m) => m,
        Err(e) => return Err(e),
    };
    let in_comps_inflections = match create_template_view_model_for_in_comps(table_name.as_str(), stem, host) {
        Ok(forms) => forms,
        Err(e) => return Err(e),
    };
    let display_stem = match host.transliterate(stem) {
        Ok(s) => s,
        Err(e) => return Err(e),
    };
    let vm = TemplateViewModel {
        pattern: String::from_str(pattern),
        stem: display_stem,
        g_values_exist,
        view_models,
        in_comps_inflections,
        abbrev_map,
    };
    Ok(vm)
}

/// Each flag is the count test of its own gender, in the order of the
/// genders: flag `j` is whether the host counts any row of gender `j`.
pub proof fn lemma_flags_are_counts<H: InflectionsHost>(host: H, table: Seq<char>, genders: Seq<Seq<char>>)
    requires
        flags_of(host, table, genders) is Ok,
    ensures
        flags_of(host, table, genders)->Ok_0.len() == genders.len(),
        forall|j: int| 0 <= j < genders.len() ==> (host.sql_answer(#[trigger] gender_count_query(table, genders[j])) matches Ok(a)
            && flags_of(host, table, genders)->Ok_0[j] == answer_count_positive(a)),
    decreases genders.len(),
{
    if genders.len() > 0 {
        let rest = genders.drop_first();
        lemma_flags_are_counts(host, table, rest);
        assert forall|j: int| 0 <= j < genders.len() implies (host.sql_answer(#[trigger] gender_count_query(table, genders[j])) matches Ok(a)
            && flags_of(host, table, genders)->Ok_0[j] == answer_count_positive(a)) by {
            if j > 0 {
                assert(rest[j - 1] == genders[j]);
            }
        }
    }
}

/// A failed count fails every list of flags that holds it.
proof fn lemma_failed_count_fails_flags<H: InflectionsHost>(host: H, table: Seq<char>, genders: Seq<Seq<char>>, j: int)
    requires
        0 <= j < genders.len(),
        host.sql_answer(gender_count_query(table, genders[j])) is Err,
    ensures
        flags_of(host, table, genders) is Err,
    decreases genders.len(),
{
    if j > 0 && gender_flag(host, table, genders[0]) is Ok {
        assert(genders.drop_first()[j - 1] == genders[j]);
        lemma_failed_count_fails_flags(host, table, genders.drop_first(), j - 1);
    }
}

/// A failed lookup of one cell fails the rows that hold its case.
proof fn lemma_failed_lookup_fails_rows<H: InflectionsHost>(host: H, table: Seq<char>, stem: Seq<char>, cases: Seq<Seq<char>>, g: Seq<Seq<char>>, n: Seq<Seq<char>>, i: int, k: int)
    requires
        0 <= i < cases.len(),
        0 <= k < g.len() * n.len(),
        host.sql_answer(row_queries(table, cases[i], g, n)[k]) is Err,
    ensures
        rows_of(host, table, stem, cases, g, n) is Err,
    decreases cases.len(),
{
    if i == 0 {
        lemma_failed_cell_fails_cells(host, stem, row_queries(table, cases[0], g, n), k);
    } else if cells_of(host, stem, row_queries(table, cases[0], g, n)) is Ok {
        assert(cases.drop_first()[i - 1] == cases[i]);
        lemma_failed_lookup_fails_rows(host, table, stem, cases.drop_first(), g, n, i - 1, k);
    }
}

/// A failed dimension query fails the table and its view model, with the
/// host's own message.
pub proof fn lemma_failed_dimension_query_fails_table<H: InflectionsHost>(host: H, pattern: Seq<char>, stem: Seq<char>)
    requires
        host.sql_answer(PARAMETER_VALUES_QUERY@) is Err,
    ensures
        case_view_models_of(host, table_name_of(pattern), stem) == Err::<(Seq<(Seq<char>, Seq<Seq<Seq<char>>>)>, Seq<bool>), Seq<char>>(host.sql_answer(PARAMETER_VALUES_QUERY@)->Err_0),
        template_of(host, pattern, stem) is Err,
{
}

/// A failed count of a resolved gender fails the table and its view model:
/// no partial table comes out.
pub proof fn lemma_failed_count_fails_table<H: InflectionsHost>(host: H, pattern: Seq<char>, stem: Seq<char>, j: int)
    requires
        host.sql_answer(PARAMETER_VALUES_QUERY@) matches Ok(a) && a.len() >= 3 && 0 <= j < answer_genders(a).len()
            && host.sql_answer(gender_count_query(table_name_of(pattern), answer_genders(a)[j])) is Err,
    ensures
        case_view_models_of(host, table_name_of(pattern), stem) is Err,
        template_of(host, pattern, stem) is Err,
{
    let a = host.sql_answer(PARAMETER_VALUES_QUERY@)->Ok_0;
    lemma_failed_count_fails_flags(host, table_name_of(pattern), answer_genders(a), j);
}

/// A failed lookup of any cell of the table (case `i`, cell `k` of its row)
/// fails the table and its view model: no partial table comes out.
pub proof fn lemma_failed_lookup_fails_table<H: InflectionsHost>(host: H, pattern: Seq<char>, stem: Seq<char>, i: int, k: int)
    requires
        host.sql_answer(PARAMETER_VALUES_QUERY@) matches Ok(a) && a.len() >= 3
            && 0 <= i < answer_cases(a).len()
            && 0 <= k < answer_genders(a).len() * answer_numbers(a).len()
            && host.sql_answer(row_queries(table_name_of(pattern), answer_cases(a)[i], answer_genders(a), answer_numbers(a))[k]) is Err,
    ensures
        case_view_models_of(host, table_name_of(pattern), stem) is Err,
        template_of(host, pattern, stem) is Err,
{
    let a = host.sql_answer(PARAMETER_VALUES_QUERY@)->Ok_0;
    lemma_failed_lookup_fails_rows(host, table_name_of(pattern), stem, answer_cases(a), answer_genders(a), answer_numbers(a), i, k);
}

/// Hosts that answer alike give the same flags.
proof fn lemma_same_answers_same_flags<H: InflectionsHost>(h1: H, h2: H, table: Seq<char>, genders: Seq<Seq<char>>)
    requires
        same_answers(h1, h2),
    ensures
        flags_of(h1, table, genders) == flags_of(h2, table, genders),
    decreases genders.len(),
{
    if genders.len() > 0 {
        assert(h1.sql_answer(gender_count_query(table, genders[0])) == h2.sql_answer(gender_count_query(table, genders[0])));
        lemma_same_answers_same_flags(h1, h2, table, genders.drop_first());
    }
}

/// Hosts that answer alike give the same rows.
proof fn lemma_same_answers_same_rows<H: InflectionsHost>(h1: H, h2: H, table: Seq<char>, stem: Seq<char>, cases: Seq<Seq<char>>, g: Seq<Seq<char>>, n: Seq<Seq<char>>)
    requires
        same_answers(h1, h2),
    ensures
        rows_of(h1, table, stem, cases, g, n) == rows_of(h2, table, stem, cases, g, n),
    decreases cases.len(),
{
    if cases.len() > 0 {
        lemma_same_answers_same_cells(h1, h2, stem, row_queries(table, cases[0], g, n));
        lemma_same_answers_same_rows(h1, h2, table, stem, cases.drop_first(), g, n);
    }
}

/// The view model depends on nothing but what the host answers: building it
/// against two hosts (or twice against one) that answer every query,
/// transliterate every text and hold the abbreviations alike gives the same
/// view model, or the same failure.
pub proof fn lemma_view_model_idempotent<H: InflectionsHost>(h1: H, h2: H, pattern: Seq<char>, stem: Seq<char>)
    requires
        same_answers(h1, h2),
        h1.abbreviations() == h2.abbreviations(),
    ensures
        template_of(h1, pattern, stem) == template_of(h2, pattern, stem),
{
    let table = table_name_of(pattern);
    assert(h1.sql_answer(PARAMETER_VALUES_QUERY@) == h2.sql_answer(PARAMETER_VALUES_QUERY@));
    assert(h1.transliteration(stem) == h2.transliteration(stem));
    lemma_same_answers_same_cells(h1, h2, stem, Seq::empty());
    assert(cell_forms(h1, stem, gender_cell_query(table, seq![], seq![], seq![])) == cell_forms(h2, stem, gender_cell_query(table, seq![], seq![], seq![])));
    if let Ok(a) = h1.sql_answer(PARAMETER_VALUES_QUERY@) {
        if a.len() >= 3 {
            lemma_same_answers_same_flags(h1, h2, table, answer_genders(a));
            lemma_same_answers_same_rows(h1, h2, table, stem, answer_cases(a), answer_genders(a), answer_numbers(a));
        }
    }
}

} // verus!
