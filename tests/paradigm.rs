use pls_core::declension;
use pls_core::declension_pron_dual;
use pls_core::declension_pron_x;
use pls_core::host::{AbbreviationsModel, AnswerModel, InflectionsHost, QueryAnswer, TextModel};
use pls_core::inflections::{
    count_is_positive, forms_from_answer, is_positive_numeral, resolve_dimension_values,
};
use pls_core::sql::{
    create_class_cell_query, create_gender_cell_query, create_gender_count_query,
    get_table_name_from_pattern, push_quoted,
};
use std::cell::Cell;
use std::collections::HashMap;

/// A data host answering from a fixed set of queries; it counts its calls and
/// can be told to fail one of them.
struct FakeHost {
    answers: HashMap<String, QueryAnswer>,
    abbreviations: HashMap<String, String>,
    calls: Cell<usize>,
    fail_at: Option<usize>,
}

impl FakeHost {
    fn new() -> FakeHost {
        let mut abbreviations = HashMap::new();
        abbreviations.insert("nom".to_string(), "N".to_string());
        FakeHost { answers: HashMap::new(), abbreviations, calls: Cell::new(0), fail_at: None }
    }

    fn answer(&mut self, sql: String, answer: QueryAnswer) {
        self.answers.insert(sql, answer);
    }

    fn tick(&self) -> Result<(), String> {
        let n = self.calls.get();
        self.calls.set(n + 1);
        if self.fail_at == Some(n) {
            return Err(format!("injected failure at call {}", n));
        }
        Ok(())
    }
}

impl InflectionsHost for FakeHost {
    fn sql_answer(&self, _sql: TextModel) -> Result<AnswerModel, TextModel> {
        panic!("models are mathematical and never run")
    }

    fn transliteration(&self, _s: TextModel) -> Result<TextModel, TextModel> {
        panic!("models are mathematical and never run")
    }

    fn abbreviations(&self) -> Result<AbbreviationsModel, TextModel> {
        panic!("models are mathematical and never run")
    }

    fn exec_sql_query(&self, sql: &str) -> Result<QueryAnswer, String> {
        self.tick()?;
        match self.answers.get(sql) {
            Some(a) => Ok(a.clone()),
            None => Ok(vec![vec![]]),
        }
    }

    fn transliterate(&self, s: &str) -> Result<String, String> {
        self.tick()?;
        if s.contains('!') {
            return Err(format!("cannot transliterate {}", s));
        }
        Ok(s.to_uppercase())
    }

    fn get_abbreviations(&self) -> Result<HashMap<String, String>, String> {
        self.tick()?;
        Ok(self.abbreviations.clone())
    }
}

fn values(names: &[&str]) -> Vec<Vec<Option<String>>> {
    names.iter().map(|n| vec![Some(n.to_string())]).collect()
}

fn endings(es: &[&str]) -> QueryAnswer {
    vec![es.iter().map(|e| vec![Some(e.to_string())]).collect()]
}

fn count(n: &str) -> QueryAnswer {
    vec![vec![vec![Some(n.to_string())]]]
}

/// Pattern "a" with cases nom, acc, genders m, f and numbers sg, pl; the
/// feminine has no form. The dimension answer also holds a placeholder and a
/// dual, which must not reach the table.
fn declension_host() -> FakeHost {
    let mut h = FakeHost::new();
    let table = "a";
    h.answer(
        declension::PARAMETER_VALUES_QUERY.to_string(),
        vec![
            values(&["", "nom", "acc"]),
            values(&["m", "", "f"]),
            values(&["sg", "dual", "pl"]),
        ],
    );
    h.answer(create_gender_count_query(table, "m"), count("4"));
    h.answer(create_gender_count_query(table, "f"), count("0"));
    h.answer(create_gender_cell_query(table, "nom", "m", "sg"), endings(&["o"]));
    h.answer(create_gender_cell_query(table, "nom", "m", "pl"), endings(&["ā", "āse"]));
    h.answer(create_gender_cell_query(table, "acc", "m", "sg"), endings(&["aṃ"]));
    h.answer(create_gender_cell_query(table, "acc", "m", "pl"), endings(&["e"]));
    h.answer(create_gender_cell_query(table, "", "", ""), endings(&["a"]));
    h
}

#[test]
fn declension_example_table() {
    let h = declension_host();
    let (rows, flags) = declension::create_case_view_models("a", "dhamm", &h).unwrap();
    assert_eq!(rows.len(), 2);
    assert_eq!(rows[0].name, "nom");
    assert_eq!(rows[1].name, "acc");
    for r in &rows {
        assert_eq!(r.inflections_list.len(), 4);
    }
    // m/sg, m/pl, f/sg, f/pl
    assert_eq!(rows[0].inflections_list[0], vec!["DHAMMO".to_string()]);
    assert_eq!(rows[0].inflections_list[1], vec!["DHAMMĀ".to_string(), "DHAMMĀSE".to_string()]);
    assert!(rows[0].inflections_list[2].is_empty());
    assert!(rows[0].inflections_list[3].is_empty());
    assert_eq!(rows[1].inflections_list[0], vec!["DHAMMAṂ".to_string()]);
    assert_eq!(rows[1].inflections_list[1], vec!["DHAMME".to_string()]);
    assert_eq!(flags, vec![true, false]);
}

#[test]
fn declension_flags_match_nonempty_genders() {
    let h = declension_host();
    let (rows, flags) = declension::create_case_view_models("a", "dhamm", &h).unwrap();
    assert_eq!(flags.len(), 2);
    let n = 2;
    for (gi, flag) in flags.iter().enumerate() {
        let any = rows
            .iter()
            .any(|r| (0..n).any(|ni| !r.inflections_list[gi * n + ni].is_empty()));
        assert_eq!(*flag, any);
    }
}

#[test]
fn declension_parameter_values_drop_placeholder_and_dual() {
    let h = declension_host();
    let pvs = declension::query_parameter_values(&h).unwrap();
    assert_eq!(pvs.c_values, vec!["nom".to_string(), "acc".to_string()]);
    assert_eq!(pvs.g_values, vec!["m".to_string(), "f".to_string()]);
    assert_eq!(pvs.n_values, vec!["sg".to_string(), "pl".to_string()]);
}

#[test]
fn declension_short_dimension_answer_is_error() {
    let answer: QueryAnswer = vec![values(&["nom"]), values(&["m"])];
    assert!(declension::parameter_values_from_answer(&answer).is_err());
}

#[test]
fn declension_view_model() {
    let h = declension_host();
    let vm = declension::create_template_view_model("a", "dhamm", &h).unwrap();
    assert_eq!(vm.pattern, "a");
    assert_eq!(vm.stem, "DHAMM");
    assert_eq!(vm.g_values_exist, vec![true, false]);
    assert_eq!(vm.view_models.len(), 2);
    assert_eq!(vm.in_comps_inflections, vec!["DHAMMA".to_string()]);
    assert_eq!(vm.abbrev_map.get("nom"), Some(&"N".to_string()));
}

#[test]
fn declension_is_idempotent() {
    let h = declension_host();
    let a = declension::create_template_view_model("a", "dhamm", &h).unwrap();
    let b = declension::create_template_view_model("a", "dhamm", &h).unwrap();
    assert_eq!(a.stem, b.stem);
    assert_eq!(a.g_values_exist, b.g_values_exist);
    assert_eq!(a.in_comps_inflections, b.in_comps_inflections);
    assert_eq!(a.view_models.len(), b.view_models.len());
    for (x, y) in a.view_models.iter().zip(b.view_models.iter()) {
        assert_eq!(x.name, y.name);
        assert_eq!(x.inflections_list, y.inflections_list);
    }
}

#[test]
fn declension_any_failure_aborts() {
    let mut h = declension_host();
    declension::create_template_view_model("a", "dhamm", &h).unwrap();
    let total = h.calls.get();
    assert!(total > 10);
    for k in 0..total {
        h.calls.set(0);
        h.fail_at = Some(k);
        let r = declension::create_template_view_model("a", "dhamm", &h);
        assert_eq!(r.err(), Some(format!("injected failure at call {}", k)));
    }
}

#[test]
fn declension_query_failure_is_returned_verbatim() {
    let mut h = declension_host();
    h.fail_at = Some(0);
    let r = declension::create_case_view_models("a", "dhamm", &h);
    assert_eq!(r.err(), Some("injected failure at call 0".to_string()));
}

#[test]
fn transliteration_failure_is_returned() {
    let h = declension_host();
    let r = declension::create_template_view_model("a", "dhamm!", &h);
    assert_eq!(r.err(), Some("cannot transliterate dhamm!o".to_string()));
}

fn dual_host() -> FakeHost {
    let mut h = FakeHost::new();
    h.answer(
        declension_pron_dual::CASE_VALUES_QUERY.to_string(),
        vec![values(&["nom", "voc", "acc", "", "gen"])],
    );
    let t = "dvi";
    h.answer(create_class_cell_query(t, "nom", "dual", "sg"), endings(&["e", "ve"]));
    h.answer(create_class_cell_query(t, "acc", "dual", "sg"), endings(&["e"]));
    h.answer(create_class_cell_query(t, "gen", "dual", "sg"), endings(&["innaṃ"]));
    h.answer(create_class_cell_query(t, "", "", ""), endings(&["i"]));
    h
}

#[test]
fn dual_pronoun_example_table() {
    let h = dual_host();
    let rows = declension_pron_dual::create_case_view_models("dvi", "dv", &h).unwrap();
    let names: Vec<&str> = rows.iter().map(|r| r.name.as_str()).collect();
    assert_eq!(names, vec!["nom", "acc", "gen"]);
    assert_eq!(rows[0].inflections, vec!["DVE".to_string(), "DVVE".to_string()]);
    assert_eq!(rows[1].inflections, vec!["DVE".to_string()]);
    assert_eq!(rows[2].inflections, vec!["DVINNAṂ".to_string()]);
    let in_comps = declension_pron_dual::create_template_view_model_for_in_comps("dvi", "dv", &h).unwrap();
    assert_eq!(in_comps, vec!["DVI".to_string()]);
}

#[test]
fn dual_pronoun_view_model() {
    let h = dual_host();
    let vm = declension_pron_dual::create_template_view_model("dvi", "dv", &h).unwrap();
    assert_eq!(vm.pattern, "dvi");
    assert_eq!(vm.stem, "DV");
    assert_eq!(vm.view_models.len(), 3);
    assert_eq!(vm.in_comps_inflections, vec!["DVI".to_string()]);
}

#[test]
fn dual_pronoun_empty_answer_is_error() {
    assert!(declension_pron_dual::case_values_from_answer(&vec![]).is_err());
}

fn classed_host() -> FakeHost {
    let mut h = FakeHost::new();
    h.answer(
        declension_pron_x::PARAMETER_VALUES_QUERY.to_string(),
        vec![values(&["nom", "voc", "acc"]), values(&["sg", "dual", "pl"])],
    );
    let t = "pron_1st";
    h.answer(create_class_cell_query(t, "nom", "1st", "sg"), endings(&["ahaṃ"]));
    h.answer(create_class_cell_query(t, "nom", "1st", "pl"), endings(&["mayaṃ", "amhe"]));
    h.answer(create_class_cell_query(t, "acc", "1st", "sg"), endings(&["maṃ"]));
    h.answer(declension_pron_x::in_comps_query(t), endings(&["mad"]));
    h
}

#[test]
fn classed_pronoun_table() {
    let h = classed_host();
    let rows = declension_pron_x::create_case_view_models("1st", "pron_1st", "", &h).unwrap();
    assert_eq!(rows.len(), 2);
    assert_eq!(rows[0].name, "nom");
    assert_eq!(rows[1].name, "acc");
    assert_eq!(rows[0].inflections_list, vec![
        vec!["AHAṂ".to_string()],
        vec!["MAYAṂ".to_string(), "AMHE".to_string()],
    ]);
    assert_eq!(rows[1].inflections_list, vec![vec!["MAṂ".to_string()], vec![]]);
}

#[test]
fn classed_pronoun_view_model() {
    let h = classed_host();
    let vm = declension_pron_x::create_template_view_model("1st", "pron 1st", "", &h).unwrap();
    assert_eq!(vm.pattern, "pron 1st");
    assert_eq!(vm.pron_type, "1st");
    assert_eq!(vm.view_models.len(), 2);
    assert_eq!(vm.in_comps_inflections, vec!["MAD".to_string()]);
    assert_eq!(vm.abbrev_map.len(), 1);
}

#[test]
fn classed_pronoun_failure_aborts() {
    let mut h = classed_host();
    h.fail_at = Some(3);
    let r = declension_pron_x::create_template_view_model("1st", "pron 1st", "", &h);
    assert_eq!(r.err(), Some("injected failure at call 3".to_string()));
}

#[test]
fn table_name_replaces_spaces() {
    assert_eq!(get_table_name_from_pattern("a masc"), "a_masc");
    assert_eq!(get_table_name_from_pattern("pron 1st"), "pron_1st");
    assert_eq!(get_table_name_from_pattern(""), "");
}

#[test]
fn quoted_values_double_apostrophes() {
    let mut s = "x='".to_string();
    push_quoted(&mut s, "o'k''");
    assert_eq!(s, "x='o''k''''");
}

#[test]
fn cell_query_text() {
    assert_eq!(
        create_gender_cell_query("a", "nom", "m", "sg"),
        "SELECT inflections FROM 'a' WHERE \"case\" = 'nom' AND gender = 'm' AND \"number\" = 'sg'"
    );
    assert_eq!(
        create_class_cell_query("t", "gen", "dual", "sg"),
        "SELECT inflections FROM 't' WHERE \"case\" = 'gen' AND special_pron_class = 'dual' AND \"number\" = 'sg'"
    );
    assert_eq!(
        create_gender_count_query("it's", "f"),
        "SELECT CAST(COUNT(*) AS TEXT) FROM 'it''s' WHERE gender = 'f'"
    );
}

#[test]
fn numerals_and_counts() {
    assert!(is_positive_numeral("1"));
    assert!(is_positive_numeral("0010"));
    assert!(!is_positive_numeral("0"));
    assert!(!is_positive_numeral("000"));
    assert!(!is_positive_numeral(""));
    assert!(!is_positive_numeral("1x"));
    assert!(count_is_positive(&count("12")));
    assert!(!count_is_positive(&count("0")));
    assert!(!count_is_positive(&vec![]));
    assert!(!count_is_positive(&vec![vec![vec![None]]]));
}

#[test]
fn dimension_values_keep_order_and_drop_excluded() {
    let rows = vec![
        vec![Some("b".to_string()), None, Some("".to_string())],
        vec![Some("voc".to_string()), Some("a".to_string())],
        vec![],
        vec![Some("c".to_string())],
    ];
    assert_eq!(resolve_dimension_values(&rows, "voc"), vec!["b", "a", "c"]);
    assert_eq!(resolve_dimension_values(&rows, ""), vec!["b", "voc", "a", "c"]);
}

#[test]
fn forms_join_stem_and_endings() {
    let answer: QueryAnswer = vec![
        vec![vec![Some("o".to_string()), None], vec![Some("".to_string())]],
        vec![vec![Some("ignored".to_string())]],
    ];
    assert_eq!(forms_from_answer("buddh", &answer), vec!["buddho", "buddh"]);
    assert!(forms_from_answer("buddh", &vec![]).is_empty());
}

fn strings(names: &[&str]) -> Vec<String> {
    names.iter().map(|n| n.to_string()).collect()
}

#[test]
fn declension_build_table_over_given_values() {
    let h = declension_host();
    let pvs = declension::ParameterValues {
        c_values: strings(&["nom", "acc"]),
        g_values: strings(&["m", "f"]),
        n_values: strings(&["sg", "pl"]),
    };
    let (rows, flags) = declension::build_table("a", "dhamm", &pvs, &h).unwrap();
    assert_eq!(flags, vec![true, false]);
    assert_eq!(rows.len(), 2);
    assert_eq!(rows[1].name, "acc");
    assert_eq!(rows[1].inflections_list, vec![
        vec!["DHAMMAṂ".to_string()],
        vec!["DHAMME".to_string()],
        vec![],
        vec![],
    ]);
    let only_rows = declension::build_case_view_models("a", "dhamm", &pvs, &h).unwrap();
    assert_eq!(only_rows.len(), 2);
    assert_eq!(only_rows[0].inflections_list.len(), 4);
}

#[test]
fn dual_pronoun_build_over_given_cases() {
    let h = dual_host();
    let rows = declension_pron_dual::build_case_view_models("dvi", "dv", &strings(&["nom", "acc", "gen"]), &h).unwrap();
    let names: Vec<&str> = rows.iter().map(|r| r.name.as_str()).collect();
    assert_eq!(names, vec!["nom", "acc", "gen"]);
    assert_eq!(rows[2].inflections, vec!["DVINNAṂ".to_string()]);
}

#[test]
fn classed_pronoun_build_over_given_values() {
    let h = classed_host();
    let pvs = declension_pron_x::ParameterValues {
        c_values: strings(&["acc"]),
        n_values: strings(&["pl", "sg"]),
    };
    let rows = declension_pron_x::build_case_view_models("1st", "pron_1st", "", &pvs, &h).unwrap();
    assert_eq!(rows.len(), 1);
    assert_eq!(rows[0].inflections_list, vec![vec![], vec!["MAṂ".to_string()]]);
    let in_comps = declension_pron_x::create_template_view_model_for_in_comps("pron_1st", "", &h).unwrap();
    assert_eq!(in_comps, vec!["MAD".to_string()]);
}

#[test]
fn in_comps_query_text() {
    assert_eq!(
        declension::in_comps_query("a"),
        "SELECT inflections FROM 'a' WHERE \"case\" = '' AND gender = '' AND \"number\" = ''"
    );
    assert_eq!(
        declension_pron_dual::in_comps_query("t"),
        "SELECT inflections FROM 't' WHERE \"case\" = '' AND special_pron_class = '' AND \"number\" = ''"
    );
    assert_eq!(declension_pron_x::in_comps_query("t"), declension_pron_dual::in_comps_query("t"));
}
