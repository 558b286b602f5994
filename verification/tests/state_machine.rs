use truchet_studio::state::{App, AppError, Effect, FileMeta, Msg};

fn meta(name: &str, file_type: &str) -> FileMeta {
    FileMeta { name: name.to_string(), file_type: file_type.to_string() }
}

#[test]
fn create_starts_empty_and_closed() {
    let app = App::create();
    assert_eq!(app.files_len(), 0);
    assert!(!app.is_tile_dropdown_open());
}

#[test]
fn submitting_starts_one_read_per_file() {
    let mut app = App::create();
    let (render, effects) = app.update(Msg::Files(vec![
        meta("a.png", "image/png"),
        meta("b.png", "image/png"),
        meta("c.png", "image/png"),
    ]));
    assert!(render);
    assert_eq!(effects.len(), 3);
    let names: Vec<String> = effects
        .iter()
        .map(|e| match e {
            Effect::StartRead(m) => m.name.clone(),
            _ => panic!("expected a read to be started"),
        })
        .collect();
    assert_eq!(names, vec!["a.png", "b.png", "c.png"]);
}

#[test]
fn distinct_names_all_reads_complete() {
    let mut app = App::create();
    app.update(Msg::Files(vec![
        meta("a.png", "image/png"),
        meta("b.png", "image/png"),
        meta("c.png", "image/png"),
    ]));
    // completion order differs from submission order
    app.update(Msg::Loaded("c.png".to_string(), "image/png".to_string(), vec![3]));
    app.update(Msg::Loaded("a.png".to_string(), "image/png".to_string(), vec![1]));
    app.update(Msg::Loaded("b.png".to_string(), "image/png".to_string(), vec![2]));
    assert_eq!(app.files_len(), 3);
    assert_eq!(app.file_at(0).name, "c.png");
    assert_eq!(app.file_at(1).name, "a.png");
    assert_eq!(app.file_at(2).name, "b.png");
}

#[test]
fn duplicate_names_are_kept_as_two_entries() {
    let mut app = App::create();
    app.update(Msg::Files(vec![meta("same.png", "image/png"), meta("same.png", "image/png")]));
    app.update(Msg::Loaded("same.png".to_string(), "image/png".to_string(), vec![1]));
    app.update(Msg::Loaded("same.png".to_string(), "image/png".to_string(), vec![2]));
    assert_eq!(app.files_len(), 2);
    assert_eq!(app.file_at(0).data, vec![1]);
    assert_eq!(app.file_at(1).data, vec![2]);
}

#[test]
fn generate_with_no_files_is_a_noop() {
    let mut app = App::create();
    let (render, effects) = app.update(Msg::GenerateButtonClicked(true));
    assert!(!render);
    assert!(effects.is_empty());
    assert_eq!(app.files_len(), 0);
    assert!(!app.is_tile_dropdown_open());
}

#[test]
fn generate_reports_undecodable_bytes() {
    let mut app = App::create();
    app.update(Msg::Loaded(
        "not-an-image.txt".to_string(),
        "text/plain".to_string(),
        vec![1, 2, 3, 4],
    ));
    let (render, effects) = app.update(Msg::GenerateButtonClicked(true));
    assert!(render);
    assert_eq!(effects.len(), 1);
    assert!(matches!(&effects[0], Effect::ReportError(AppError::NotAnImage)));
    assert_eq!(app.files_len(), 1);
}

#[test]
fn toggle_alternates_flag_and_lags_classes() {
    let opened = "rounded-md bg-white focus:outline-none";
    let closed = "rounded-md bg-white focus:outline-none hidden";
    let mut app = App::create();
    let mut applied: Vec<String> = Vec::new();
    for _ in 0..4 {
        let (render, effects) = app.update(Msg::TileDropdownClicked(true));
        assert!(render);
        assert_eq!(effects.len(), 1);
        match &effects[0] {
            Effect::SetPanelClasses(classes) => applied.push(classes.clone()),
            _ => panic!("expected the panel classes to be set"),
        }
    }
    // flag: false -> true -> false -> true -> false... after 4 toggles it is false
    assert!(!app.is_tile_dropdown_open());
    // the applied set lags the flag: odd toggles apply the hidden set
    assert_eq!(applied, vec![closed, opened, closed, opened]);
}

#[test]
fn toggle_flag_after_each_step() {
    let mut app = App::create();
    app.update(Msg::TileDropdownClicked(true));
    assert!(app.is_tile_dropdown_open());
    app.update(Msg::TileDropdownClicked(true));
    assert!(!app.is_tile_dropdown_open());
    app.update(Msg::TileDropdownClicked(true));
    assert!(app.is_tile_dropdown_open());
}

#[test]
fn failed_read_is_reported() {
    let mut app = App::create();
    app.update(Msg::Files(vec![meta("gone.png", "image/png")]));
    let (render, effects) = app.update(Msg::ReadFailed("gone.png".to_string()));
    assert!(render);
    assert_eq!(effects.len(), 1);
    match &effects[0] {
        Effect::ReportError(AppError::ReadFailed(name)) => assert_eq!(name, "gone.png"),
        _ => panic!("expected the failure to be reported"),
    }
    assert_eq!(app.files_len(), 0);
}
