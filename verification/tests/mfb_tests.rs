use kurobako::error::ErrorKind;
use kurobako::problems::mfb::{Cost, Mfb, MfbEvaluator, MfbProblemRecipe};
use kurobako::problems::synthetic::{SyntheticEvaluator, SyntheticProblem, SyntheticProblemRecipe};

#[test]
fn costs() {
    assert_eq!(Cost::Linear.cost(1234), 1234);
    assert_eq!(Cost::NonLinear.cost(10000), 10000);
    assert_eq!(Cost::NonLinear.cost(1000), 1);
    assert_eq!(Cost::NonLinear.cost(3500), 150);
    assert_eq!(Cost::NonLinear.cost(0), 0);
    assert_eq!(Cost::NonLinear.cost(u64::MAX), u64::MAX);
}

#[test]
fn fidelities_of_problems() {
    assert_eq!(Mfb::new(2, 4).phis(), (0..=10).map(|i| i * 1000).collect::<Vec<u64>>());
    assert_eq!(Mfb::new(2, 5).phis(), vec![1000, 3000, 10000]);
    assert_eq!(Mfb::new(2, 6).phis(), vec![1000, 10000]);
    assert_eq!(Mfb::new(2, 1).phis().len(), 10001);
}

#[test]
fn chosen_fidelity_grows_with_budget() {
    let m = Mfb::new(8, 5);
    assert_eq!(m.c, Cost::NonLinear);
    assert_eq!(m.choose_phi(0), 1000);
    assert_eq!(m.choose_phi(80), 1000);
    assert_eq!(m.choose_phi(81), 3000);
    assert_eq!(m.choose_phi(10000), 10000);
    let linear = Mfb::new(8, 1);
    assert_eq!(linear.choose_phi(77), 77);
    assert_eq!(linear.choose_phi(50000), 10000);
}

#[test]
fn evaluator_fidelity_from_budget() {
    let e = MfbEvaluator { mfb: Mfb::new(3, 2), fidelity_levels: 100 };
    assert_eq!(e.fidelity(1), 100);
    assert_eq!(e.fidelity(100), 10000);
}

#[test]
fn recipe_validation() {
    let ok = MfbProblemRecipe { problem_number: 13, dimensions: 8, fidelity_levels: 100 };
    let p = ok.create_problem().ok().unwrap();
    assert_eq!(p.fidelity_levels, 100);
    assert_eq!(p.mfb.no, 13);
    let bad = [
        MfbProblemRecipe { problem_number: 0, dimensions: 8, fidelity_levels: 100 },
        MfbProblemRecipe { problem_number: 14, dimensions: 8, fidelity_levels: 100 },
        MfbProblemRecipe { problem_number: 1, dimensions: 0, fidelity_levels: 100 },
        MfbProblemRecipe { problem_number: 1, dimensions: 8, fidelity_levels: 0 },
        MfbProblemRecipe { problem_number: 1, dimensions: 8, fidelity_levels: 10_001 },
    ];
    for r in bad.iter() {
        assert_eq!(r.create_problem().err(), Some(ErrorKind::InvalidInput));
    }
}

#[test]
fn synthetic_recipe_wraps_mfb() {
    let r = SyntheticProblemRecipe::Mfb(MfbProblemRecipe { problem_number: 3, dimensions: 2, fidelity_levels: 10 });
    match r.create_problem() {
        Ok(p) => {
            let SyntheticProblem::Mfb(inner) = &p;
            assert_eq!(inner.mfb.no, 3);
            let SyntheticEvaluator::Mfb(e) = p.create_evaluator();
            assert_eq!(e.fidelity_levels, 10);
        }
        Err(_) => panic!("valid recipe refused"),
    }
}

#[test]
fn mfb_problem_names() {
    let p = MfbProblemRecipe { problem_number: 12, dimensions: 2, fidelity_levels: 5 }.create_problem().ok().unwrap();
    assert_eq!(p.problem_name(), "MFB12");
}
