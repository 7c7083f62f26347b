use clicker_data_collector::box_plot::BoxPlot;

// Statistics are reported in quarter units: a field of 12 means a value of 3.

#[test]
fn box_plot_five_samples() {
    let samples: Vec<i64> = vec![1, 2, 3, 4, 5];
    let bp = BoxPlot::new(&samples);
    assert_eq!(bp.median_x4(), 3 * 4);
    assert_eq!(bp.q1_x4, 2 * 4);
    assert_eq!(bp.q3_x4, 4 * 4);
    assert_eq!(bp.iqr_x4(), 2 * 4);
}

#[test]
fn box_plot_single_sample() {
    let samples: Vec<i64> = vec![5];
    let bp = BoxPlot::new(&samples);
    assert_eq!(bp.q1_x4, 5 * 4);
    assert_eq!(bp.median_x4(), 5 * 4);
    assert_eq!(bp.q3_x4, 5 * 4);
    assert_eq!(bp.iqr_x4(), 0);
}

#[test]
fn box_plot_unsorted_input() {
    let samples: Vec<i64> = vec![5, 1, 4, 2, 3];
    let bp = BoxPlot::new(&samples);
    assert_eq!(bp.median_x4(), 3 * 4);
    assert_eq!(bp.q1_x4, 2 * 4);
    assert_eq!(bp.q3_x4, 4 * 4);
}

#[test]
fn box_plot_duplicates() {
    let samples: Vec<i64> = vec![2, 2, 2];
    let bp = BoxPlot::new(&samples);
    assert_eq!(bp.q1_x4, 8);
    assert_eq!(bp.median_x4(), 8);
    assert_eq!(bp.q3_x4, 8);
    assert_eq!(bp.iqr_x4(), 0);
}

#[test]
fn box_plot_interpolates_between_order_statistics() {
    // Two samples: q1 sits a quarter of the way, the median half way,
    // q3 three quarters of the way between them.
    let samples: Vec<i64> = vec![1, 3];
    let bp = BoxPlot::new(&samples);
    assert_eq!(bp.q1_x4, 6); // 1.5
    assert_eq!(bp.median_x4(), 8); // 2.0
    assert_eq!(bp.q3_x4, 10); // 2.5
    assert_eq!(bp.iqr_x4(), 4); // 1.0
}

#[test]
fn box_plot_four_samples() {
    // Positions fall at fractional indices: q1 at 0.75, median at 1.5,
    // q3 at 2.25 over the sorted samples [10, 20, 30, 40].
    let samples: Vec<i64> = vec![40, 10, 30, 20];
    let bp = BoxPlot::new(&samples);
    assert_eq!(bp.q1_x4, 70); // 17.5
    assert_eq!(bp.median_x4(), 100); // 25.0
    assert_eq!(bp.q3_x4, 130); // 32.5
    assert_eq!(bp.iqr_x4(), 60); // 15.0
}

#[test]
fn box_plot_negative_samples() {
    let samples: Vec<i64> = vec![-5, -1, -3];
    let bp = BoxPlot::new(&samples);
    assert_eq!(bp.median_x4(), -3 * 4);
    assert_eq!(bp.q1_x4, -4 * 4);
    assert_eq!(bp.q3_x4, -2 * 4);
    assert_eq!(bp.iqr_x4(), 2 * 4);
}
