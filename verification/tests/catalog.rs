use meles::prelude::{Meles, MethodType, Opt};
use meles::error::ConfigError;
use meles::problem::{bp_data, lookup, BPData, CeedBP, QuadMode};

fn expected(
    num_components: usize,
    q_data_size: usize,
    setup_name: &str,
    apply_name: &str,
    input_name: &str,
    output_name: &str,
    q_mode: QuadMode,
    set_boundary_conditions: bool,
) -> BPData {
    BPData {
        num_components,
        q_data_size,
        setup_name: setup_name.to_string(),
        apply_name: apply_name.to_string(),
        input_name: input_name.to_string(),
        output_name: output_name.to_string(),
        q_mode,
        set_boundary_conditions,
    }
}

#[test]
fn catalog_holds_the_scalar_mass_problem() {
    assert_eq!(
        bp_data(CeedBP::BP1),
        expected(1, 1, "Mass3DBuild", "MassApply", "u", "v", QuadMode::Gauss, false)
    );
}

#[test]
fn catalog_holds_the_vector_mass_problem() {
    assert_eq!(
        bp_data(CeedBP::BP2),
        expected(3, 1, "Mass3DBuild", "Vector3MassApply", "u", "v", QuadMode::Gauss, false)
    );
}

#[test]
fn catalog_holds_the_scalar_poisson_problem() {
    assert_eq!(
        bp_data(CeedBP::BP3),
        expected(1, 6, "Poisson3DBuild", "Poisson3DApply", "du", "dv", QuadMode::Gauss, true)
    );
}

#[test]
fn catalog_holds_the_vector_poisson_problem() {
    assert_eq!(
        bp_data(CeedBP::BP4),
        expected(
            3,
            6,
            "Poisson3DBuild",
            "Vector3Poisson3DApply",
            "du",
            "dv",
            QuadMode::Gauss,
            true
        )
    );
}

#[test]
fn catalog_holds_the_collocated_scalar_poisson_problem() {
    assert_eq!(
        bp_data(CeedBP::BP5),
        expected(
            1,
            6,
            "Poisson3DBuild",
            "Poisson3DApply",
            "du",
            "dv",
            QuadMode::GaussLobatto,
            true
        )
    );
}

#[test]
fn catalog_holds_the_collocated_vector_poisson_problem() {
    assert_eq!(
        bp_data(CeedBP::BP6),
        expected(
            3,
            6,
            "Poisson3DBuild",
            "Vector3Poisson3DApply",
            "du",
            "dv",
            QuadMode::GaussLobatto,
            true
        )
    );
}

#[test]
fn every_problem_has_one_or_three_components_and_one_or_six_values() {
    let all = [CeedBP::BP1, CeedBP::BP2, CeedBP::BP3, CeedBP::BP4, CeedBP::BP5, CeedBP::BP6];
    for bp in all {
        let data = bp_data(bp);
        assert!(data.num_components == 1 || data.num_components == 3);
        assert!(data.q_data_size == 1 || data.q_data_size == 6);
        assert_eq!(data.q_data_size == 6, data.set_boundary_conditions);
    }
}

#[test]
fn lookup_finds_each_problem_by_its_identifier() {
    let all = [CeedBP::BP1, CeedBP::BP2, CeedBP::BP3, CeedBP::BP4, CeedBP::BP5, CeedBP::BP6];
    for bp in all {
        assert_eq!(lookup(&bp.name()), Ok(bp_data(bp)));
    }
    assert_eq!(lookup("bp3").unwrap().apply_name, "Poisson3DApply");
}

#[test]
fn lookup_rejects_unknown_identifier() {
    assert_eq!(lookup("bp7"), Err(ConfigError::UnknownProblem));
    assert_eq!(lookup("bp0"), Err(ConfigError::UnknownProblem));
    assert_eq!(lookup(""), Err(ConfigError::UnknownProblem));
    assert_eq!(lookup("BP1"), Err(ConfigError::UnknownProblem));
    assert_eq!(lookup("bp1 "), Err(ConfigError::UnknownProblem));
    assert_eq!(lookup("bp12"), Err(ConfigError::UnknownProblem));
}

#[test]
fn identifiers_are_read_back() {
    assert_eq!(CeedBP::from_str("bp1"), Ok(CeedBP::BP1));
    assert_eq!(CeedBP::from_str("bp2"), Ok(CeedBP::BP2));
    assert_eq!(CeedBP::from_str("bp3"), Ok(CeedBP::BP3));
    assert_eq!(CeedBP::from_str("bp4"), Ok(CeedBP::BP4));
    assert_eq!(CeedBP::from_str("bp5"), Ok(CeedBP::BP5));
    assert_eq!(CeedBP::from_str("bp6"), Ok(CeedBP::BP6));
    assert_eq!(CeedBP::from_str("mass"), Err(ConfigError::UnknownProblem));
}

#[test]
fn names_and_numbers_go_together() {
    let all = [CeedBP::BP1, CeedBP::BP2, CeedBP::BP3, CeedBP::BP4, CeedBP::BP5, CeedBP::BP6];
    for (i, bp) in all.iter().enumerate() {
        assert_eq!(bp.number(), i + 1);
        assert_eq!(bp.name(), format!("bp{}", i + 1));
        assert_eq!(CeedBP::from_str(&bp.name()), Ok(*bp));
    }
}

#[test]
fn options_have_defaults() {
    assert_eq!(
        Opt::from_options(None, None, None),
        Ok(Opt { problem: CeedBP::BP1, order: 3, q_extra: 1 })
    );
    assert_eq!(
        Opt::from_options(Some("bp4"), Some(2), Some(0)),
        Ok(Opt { problem: CeedBP::BP4, order: 2, q_extra: 0 })
    );
    assert_eq!(
        Opt::from_options(Some("bp6"), None, Some(3)),
        Ok(Opt { problem: CeedBP::BP6, order: 3, q_extra: 3 })
    );
}

#[test]
fn options_reject_unknown_problem() {
    assert_eq!(Opt::from_options(Some("bp9"), Some(2), Some(0)), Err(ConfigError::UnknownProblem));
}

#[test]
fn points_follow_order_and_extra() {
    let opt = Opt { problem: CeedBP::BP1, order: 3, q_extra: 1 };
    assert_eq!(opt.points(), Ok((4, 5)));
    let opt = Opt { problem: CeedBP::BP1, order: 0, q_extra: 0 };
    assert_eq!(opt.points(), Ok((1, 1)));
    let opt = Opt { problem: CeedBP::BP1, order: usize::MAX - 1, q_extra: 0 };
    assert_eq!(opt.points(), Ok((usize::MAX, usize::MAX)));
}

#[test]
fn points_that_overflow_are_too_large() {
    let opt = Opt { problem: CeedBP::BP1, order: usize::MAX, q_extra: 0 };
    assert_eq!(opt.points(), Err(ConfigError::TooLarge));
    let opt = Opt { problem: CeedBP::BP1, order: usize::MAX - 1, q_extra: 1 };
    assert_eq!(opt.points(), Err(ConfigError::TooLarge));
}

#[test]
fn prelude_names_the_set_up() {
    let opt = Opt { problem: CeedBP::BP5, order: 4, q_extra: 0 };
    let meles = Meles::new(Some("/cpu/self/opt"), opt, MethodType::BenchmarkProblem);
    assert_eq!(meles.ceed_resource(), "/cpu/self/opt");
    assert_eq!(meles.opt().points(), Ok((5, 5)));
    assert_eq!(meles.data().q_mode, QuadMode::GaussLobatto);
}
