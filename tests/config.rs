use qhull::{
    collect_coords, BuildFailure, BuildStep, Flag, IOBuffers, InputError, IntOption, QhBuilder, QhError,
    QhErrorKind, QhSet, Setting, Stream, TmpFile,
};

#[test]
fn collect_coords_of_a_triangle() {
    let c = collect_coords(&vec![vec![0.0, 0.0], vec![1.0, 0.0], vec![0.0, 2.0]]);
    assert_eq!(c.coords, vec![0.0, 0.0, 1.0, 0.0, 0.0, 2.0]);
    assert_eq!(c.count, 3);
    assert_eq!(c.dim, 2);
}

#[test]
fn collect_coords_of_one_point() {
    let c = collect_coords(&vec![vec![4, 5, 6]]);
    assert_eq!(c.coords, vec![4, 5, 6]);
    assert_eq!(c.count, 1);
    assert_eq!(c.dim, 3);
}

#[test]
fn builder_defaults() {
    let b = QhBuilder::default();
    assert_eq!(b.dim, None);
    assert!(!b.capture_stdout);
    assert!(b.capture_stderr);
    assert!(b.compute);
    assert!(!b.check_output);
    assert!(!b.check_points);
    assert!(b.configs.is_empty());
}

#[test]
fn builder_setters_change_one_field_each() {
    let b = QhBuilder::default()
        .dim(3)
        .capture_stdout(true)
        .capture_stderr(false)
        .compute(false)
        .check_output(true)
        .check_points(true);
    assert_eq!(b.dim, Some(3));
    assert!(b.capture_stdout);
    assert!(!b.capture_stderr);
    assert!(!b.compute);
    assert!(b.check_output);
    assert!(b.check_points);
}

#[test]
fn dimension_hint_mismatch_fails_before_any_call() {
    let b = QhBuilder::default().dim(3);
    assert_eq!(
        b.check_input(2, 8),
        Err(InputError::DimensionMismatch { hint: 3, dim: 2 })
    );
}

#[test]
fn check_input_counts_points() {
    assert_eq!(QhBuilder::default().dim(2).check_input(2, 8), Ok(4));
    assert_eq!(QhBuilder::default().check_input(3, 9), Ok(3));
}

#[test]
fn check_input_rejects_empty_input() {
    assert_eq!(QhBuilder::default().check_input(3, 0), Err(InputError::EmptyInput));
    assert_eq!(QhBuilder::default().dim(2).check_input(2, 0), Err(InputError::EmptyInput));
    assert_eq!(
        QhBuilder::default().dim(3).check_input(2, 0),
        Err(InputError::DimensionMismatch { hint: 3, dim: 2 })
    );
}

#[test]
fn check_input_rejects_ragged_and_zero_dimension() {
    assert_eq!(
        QhBuilder::default().check_input(2, 7),
        Err(InputError::RaggedCoordinates { len: 7, dim: 2 })
    );
    assert_eq!(QhBuilder::default().check_input(0, 4), Err(InputError::ZeroDimension));
}

#[test]
fn steps_of_the_default_builder() {
    assert_eq!(
        QhBuilder::default().steps(),
        vec![BuildStep::Init, BuildStep::AttachPoints, BuildStep::Compute]
    );
}

#[test]
fn steps_apply_settings_in_order_and_checks_after_compute() {
    let b = QhBuilder::default()
        .triangulate(true)
        .delaunay(false)
        .check_output(true)
        .check_points(true);
    assert_eq!(
        b.steps(),
        vec![
            BuildStep::Init,
            BuildStep::Configure(Setting::Flag(Flag::Triangulate, true)),
            BuildStep::Configure(Setting::Flag(Flag::Delaunay, false)),
            BuildStep::AttachPoints,
            BuildStep::Compute,
            BuildStep::CheckOutput,
            BuildStep::CheckPoints,
        ]
    );
    assert_eq!(
        b.compute(false).steps(),
        vec![
            BuildStep::Init,
            BuildStep::Configure(Setting::Flag(Flag::Triangulate, true)),
            BuildStep::Configure(Setting::Flag(Flag::Delaunay, false)),
            BuildStep::AttachPoints,
        ]
    );
}

#[test]
fn delaunay_preset_settings() {
    let b = QhBuilder::delaunay_preset();
    assert_eq!(
        b.configs,
        vec![
            Setting::Flag(Flag::Delaunay, true),
            Setting::Flag(Flag::UpperDelaunay, true),
            Setting::Flag(Flag::ScaleLast, true),
            Setting::Flag(Flag::Triangulate, true),
            Setting::Flag(Flag::KeepCoplanar, true),
        ]
    );
    assert_eq!(b.steps().len(), 8);
    let c = QhBuilder::default().with_configure(Setting::Flag(Flag::KeepCoplanar, false));
    assert_eq!(c.configs, vec![Setting::Flag(Flag::KeepCoplanar, false)]);
}

#[test]
fn error_kind_keeps_its_code() {
    let k = QhErrorKind::from_code(7);
    assert_eq!(k, QhErrorKind::Other(7));
    assert_eq!(k.error_code(), 7);
    assert_eq!(QhErrorKind::from_code(-1).error_code(), -1);
}

#[test]
fn try_outcome_gives_the_value_on_status_zero() {
    let r = QhError::try_outcome(0, Some(42u32), None);
    assert_eq!(r.unwrap(), 42);
}

#[test]
fn try_outcome_gives_a_typed_error_on_failure() {
    let r = QhError::try_outcome(2, None::<u32>, Some("QH6154 initial simplex is flat".to_string()));
    let e = r.unwrap_err();
    assert_eq!(e.kind(), QhErrorKind::Other(2));
    assert_eq!(e.kind.error_code(), 2);
    assert_eq!(
        e.error_message().map(|m| m.as_str()),
        Some("QH6154 initial simplex is flat")
    );
    let r = QhError::try_outcome(4, Some(1u8), None);
    assert!(r.is_err());
}

#[test]
fn set_iteration_stops_at_first_empty_slot() {
    let s = QhSet::maybe_new(Some(vec![Some(3), Some(1), None, Some(5)]), 4).unwrap();
    assert_eq!(s.iter(), vec![3, 1]);
    assert_eq!(s.size(), 2);
    assert_eq!(s.maxsize(), 4);
    let full = QhSet::maybe_new(Some(vec![Some(0), Some(9)]), 2).unwrap();
    assert_eq!(full.iter(), vec![0, 9]);
    let empty = QhSet::maybe_new(Some(vec![None, Some(2)]), 2).unwrap();
    assert!(empty.iter().is_empty());
    assert!(QhSet::maybe_new(None, 0).is_none());
}

#[test]
fn capture_file_reads_back_what_was_written() {
    let mut f = TmpFile::new();
    f.write(b"QH6214 qhull input error");
    f.write(b"\n");
    assert_eq!(f.clone().read_and_close(), b"QH6214 qhull input error\n".to_vec());
    assert_eq!(f.read_as_string_and_close(), Some("QH6214 qhull input error\n".to_string()));
}

#[test]
fn capture_file_decodes_utf8_and_rejects_invalid_bytes() {
    let mut f = TmpFile::new();
    f.write("é".as_bytes());
    assert_eq!(f.read_as_string_and_close(), Some("é".to_string()));
    let mut g = TmpFile::new();
    g.write(&[0x61, 0xff]);
    assert_eq!(g.read_as_string_and_close(), None);
    assert_eq!(TmpFile::new().read_as_string_and_close(), Some(String::new()));
}

#[test]
fn streams_go_to_capture_files_when_asked() {
    let b = IOBuffers::new(true, false);
    assert_eq!(b.in_file(), Stream::Stdin);
    assert_eq!(b.out_file(), Stream::CapturedOut);
    assert_eq!(b.err_file(), Stream::Stderr);
    let c = IOBuffers::new(false, true);
    assert_eq!(c.out_file(), Stream::Stdout);
    assert_eq!(c.err_file(), Stream::CapturedErr);
}

#[test]
fn error_text_is_taken_and_replaced() {
    let mut b = IOBuffers::new(false, true);
    b.err_file.as_mut().unwrap().write(b"flat simplex");
    assert_eq!(b.take_error_text(), Some(b"flat simplex".to_vec()));
    assert_eq!(b.take_error_text(), Some(vec![]));
    let mut n = IOBuffers::new(false, false);
    assert_eq!(n.take_error_text(), None);
    assert_eq!(n.err_file(), Stream::CapturedErr);
    assert_eq!(n.take_error_text(), Some(vec![]));
}

#[test]
fn generic_options_are_recorded_in_order() {
    let b = QhBuilder::default()
        .flag(Flag::AllPoints, true)
        .int_option(IntOption::TraceLevel, 3)
        .flag(Flag::HalfSpace, false)
        .compute(false);
    assert_eq!(
        b.configs,
        vec![
            Setting::Flag(Flag::AllPoints, true),
            Setting::Int(IntOption::TraceLevel, 3),
            Setting::Flag(Flag::HalfSpace, false),
        ]
    );
    assert_eq!(
        b.steps(),
        vec![
            BuildStep::Init,
            BuildStep::Configure(Setting::Flag(Flag::AllPoints, true)),
            BuildStep::Configure(Setting::Int(IntOption::TraceLevel, 3)),
            BuildStep::Configure(Setting::Flag(Flag::HalfSpace, false)),
            BuildStep::AttachPoints,
        ]
    );
}

#[test]
fn build_stops_at_the_first_failing_step() {
    let b = QhBuilder::default().triangulate(true).check_output(true);
    assert_eq!(b.build_outcome(&vec![0, 0, 0, 0, 0]), Ok(()));
    assert_eq!(
        b.build_outcome(&vec![0, 0, 0, 2, 5]),
        Err(BuildFailure { index: 3, step: BuildStep::Compute, code: 2 })
    );
    assert_eq!(
        b.build_outcome(&vec![0, 7, 0, 2, 5]),
        Err(BuildFailure {
            index: 1,
            step: BuildStep::Configure(Setting::Flag(Flag::Triangulate, true)),
            code: 7
        })
    );
}

#[test]
fn settle_gives_the_value_on_success_and_keeps_the_capture() {
    let mut b = IOBuffers::new(false, true);
    b.err_file.as_mut().unwrap().write(b"note");
    assert_eq!(b.settle(0, Some(5u32)).unwrap(), 5);
    assert_eq!(b.take_error_text(), Some(b"note".to_vec()));
}

#[test]
fn settle_attaches_the_captured_error_text() {
    let mut b = IOBuffers::new(false, true);
    b.err_file.as_mut().unwrap().write(b"QH6154 initial simplex is flat");
    let e = b.settle(2, None::<u32>).unwrap_err();
    assert_eq!(e.kind, QhErrorKind::Other(2));
    assert_eq!(e.error_message, Some("QH6154 initial simplex is flat".to_string()));
    assert_eq!(b.take_error_text(), Some(vec![]));
    let mut n = IOBuffers::new(false, false);
    assert_eq!(n.err_file(), Stream::Stderr);
    let e = n.settle(3, None::<u32>).unwrap_err();
    assert_eq!(e.kind, QhErrorKind::Other(3));
    assert_eq!(e.error_message, None);
    assert_eq!(n.err_file(), Stream::CapturedErr);
}

#[test]
fn utf8_edge_cases() {
    let decode = |bytes: &[u8]| {
        let mut f = TmpFile::new();
        f.write(bytes);
        f.read_as_string_and_close()
    };
    assert_eq!(decode("\u{20ac}".as_bytes()), Some("\u{20ac}".to_string()));
    assert_eq!(decode("\u{1f600}".as_bytes()), Some("\u{1f600}".to_string()));
    assert_eq!(decode(&[0xc0, 0x80]), None);
    assert_eq!(decode(&[0xed, 0xa0, 0x80]), None);
    assert_eq!(decode(&[0xf4, 0x90, 0x80, 0x80]), None);
    assert_eq!(decode(&[0xe2, 0x82]), None);
}

#[test]
fn plan_build_checks_the_input_first() {
    let b = QhBuilder::default().dim(3).triangulate(true);
    assert_eq!(
        b.plan_build(2, 8),
        Err(InputError::DimensionMismatch { hint: 3, dim: 2 })
    );
    assert_eq!(b.plan_build(3, 0), Err(InputError::EmptyInput));
    assert_eq!(
        b.plan_build(3, 9),
        Ok(vec![
            BuildStep::Init,
            BuildStep::Configure(Setting::Flag(Flag::Triangulate, true)),
            BuildStep::AttachPoints,
            BuildStep::Compute,
        ])
    );
}
