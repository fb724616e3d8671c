use battgen::electrical::{Chem, Module};
use battgen::submodule::{
    Submodule, MAX_PARALLEL_SUB, MAX_SERIES_SUB, SUB_CELL_VMAX_MV, SUB_CELL_VMIN_MV,
};

fn with_counts(series: i32, parallel: i32) -> Module {
    let (mut m, _) = Module::new_cyl_cell(Chem::NMC);
    m.series = series;
    m.parallel = parallel;
    m
}

fn pairs(options: Vec<Submodule>) -> Vec<(i32, i32)> {
    options.iter().map(|o| (o.count, o.size)).collect()
}

#[test]
fn limits_are_twenty_five() {
    assert_eq!(MAX_SERIES_SUB, 25);
    assert_eq!(MAX_PARALLEL_SUB, 25);
}

#[test]
fn series_submodules_of_96() {
    assert_eq!(
        pairs(with_counts(96, 1).series_submodules()),
        vec![(1, 96), (2, 48), (3, 32), (4, 24), (6, 16), (8, 12), (12, 8), (16, 6), (24, 4)]
    );
}

#[test]
fn parallel_submodules_of_10() {
    assert_eq!(pairs(with_counts(96, 10).parallel_submodules()), vec![(1, 10), (2, 5), (5, 2), (10, 1)]);
}

#[test]
fn submodules_of_a_single_cell() {
    let m = with_counts(1, 1);
    assert_eq!(pairs(m.series_submodules()), vec![(1, 1)]);
    assert_eq!(pairs(m.parallel_submodules()), vec![(1, 1)]);
}

#[test]
fn submodule_count_stays_below_the_limit() {
    assert_eq!(pairs(with_counts(25, 1).series_submodules()), vec![(1, 25), (5, 5)]);
    assert_eq!(pairs(with_counts(1, 50).parallel_submodules()), vec![(1, 50), (2, 25), (5, 10), (10, 5)]);
    assert_eq!(
        pairs(with_counts(24, 1).series_submodules()),
        vec![(1, 24), (2, 12), (3, 8), (4, 6), (6, 4), (8, 3), (12, 2), (24, 1)]
    );
}

#[test]
fn submodules_of_zero_cells() {
    let options = pairs(with_counts(0, 1).series_submodules());
    assert_eq!(options.len(), 24);
    for (i, o) in options.iter().enumerate() {
        assert_eq!(*o, (i as i32 + 1, 0));
    }
}

#[test]
fn submodules_of_a_negative_count() {
    assert_eq!(pairs(with_counts(-6, 1).series_submodules()), vec![(1, -6), (2, -3), (3, -2), (6, -1)]);
    assert_eq!(pairs(with_counts(1, i32::MIN).parallel_submodules()), vec![
        (1, i32::MIN),
        (2, i32::MIN / 2),
        (4, i32::MIN / 4),
        (8, i32::MIN / 8),
        (16, i32::MIN / 16),
    ]);
}

#[test]
fn every_submodule_makes_up_the_whole() {
    for n in [1, 7, 12, 23, 24, 25, 48, 96, 97, 360] {
        let options = with_counts(n, n).series_submodules();
        for x in 1..25 {
            let listed = options.iter().filter(|o| o.count == x).count();
            assert_eq!(listed, if n % x == 0 { 1 } else { 0 });
        }
        for o in options {
            assert_eq!(o.count * o.size, n);
        }
    }
}

#[test]
fn submodule_voltage_range() {
    assert_eq!(SUB_CELL_VMIN_MV, 3700);
    assert_eq!(SUB_CELL_VMAX_MV, 4100);
    assert_eq!(Submodule { count: 24, size: 4 }.voltage_range_mv(), (14_800, 16_400));
    assert_eq!(Submodule { count: 1, size: 96 }.voltage_range_mv(), (355_200, 393_600));
    assert_eq!(Submodule { count: 1, size: 0 }.voltage_range_mv(), (0, 0));
    assert_eq!(
        Submodule { count: 1, size: i32::MAX }.voltage_range_mv(),
        (i32::MAX as i64 * 3700, i32::MAX as i64 * 4100)
    );
    assert_eq!(Submodule { count: 1, size: -2 }.voltage_range_mv(), (-7400, -8200));
}
