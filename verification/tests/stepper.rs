use snake_core::{to_sequence, Direction, HVStepper, Stepper};

#[test]
fn to_sequence_test() {
    let range = 1..200;

    for cells in range.clone() {
        for frames in range.clone() {
            let steps = to_sequence(cells, frames);
            let len = steps.len() as u64;
            let sum = steps.iter().fold(0, |sum, i| sum + i);
            assert_eq!(
                len, cells,
                "Length != cells ({} cells, {} frames)",
                cells, frames
            );
            assert_eq!(
                sum, frames,
                "Sum != frames ({} cells, {} frames)",
                cells, frames
            );
        }
    }
}

#[test]
fn to_sequence_spreads_evenly() {
    for cells in 1..100u64 {
        for frames in 1..100u64 {
            let steps = to_sequence(cells, frames);
            let lower = frames / cells;
            for wait in steps {
                assert!(
                    wait == lower || wait == lower + 1,
                    "uneven wait {} ({} cells, {} frames)",
                    wait,
                    cells,
                    frames
                );
            }
        }
    }
}

#[test]
fn stepper() {
    let range = 1..200;
    let runs = 3;

    for cells in range.clone() {
        for frames in range.clone() {
            let mut stepper = Stepper::new(cells, frames);
            let mut stepped = 0;

            for run in 1..=runs {
                for _ in 0..frames {
                    stepped += stepper.next();
                }

                assert_eq!(
                    stepped,
                    run * cells,
                    "{} cells, {} frames, run {}/{}",
                    cells,
                    frames,
                    run,
                    runs
                );
            }
        }
    }
}

#[test]
fn stepper_two_cells_in_eight_frames() {
    assert_eq!(to_sequence(2, 8), vec![4, 4]);

    let mut stepper = Stepper::new(2, 8);
    let mut total = 0;
    let mut first_half = 0;
    for tick in 1..=8 {
        let steps = stepper.next();
        total += steps;
        if tick <= 4 {
            first_half += steps;
        }
    }
    assert_eq!(total, 2);
    // spread rather than clustered: one step in each half of the cycle
    assert_eq!(first_half, 1);
}

#[test]
fn hv_stepper() {
    let h_cells = 2;
    let v_cells = 4;
    let frames = 8;
    let runs = 3;

    let mut stepper = HVStepper::new(h_cells, v_cells, frames);
    let mut h_stepped = 0;
    let mut v_stepped = 0;

    for run in 1..=runs {
        for i in 0..(2 * frames) {
            if i % 2 == 0 {
                h_stepped += stepper.next(Direction::Left);
            } else {
                v_stepped += stepper.next(Direction::Up);
            }
        }

        assert_eq!(
            h_stepped,
            run * h_cells,
            "{} h_cells, {} frames, run {}/{}",
            h_cells,
            frames,
            run,
            runs
        );
        assert_eq!(
            v_stepped,
            run * v_cells,
            "{} v_cells, {} frames, run {}/{}",
            v_cells,
            frames,
            run,
            runs
        );
        assert_eq!(
            h_stepped + v_stepped,
            run * (h_cells + v_cells),
            "{} cells, {} frames, run {}/{}",
            h_cells + v_cells,
            frames,
            run,
            runs
        );
    }
}
