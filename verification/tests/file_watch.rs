use pixel_engine::file_watch::FileWatcher;

#[test]
fn initially_contains_no_changed_files() {
    let mut file_watcher = FileWatcher::new(100);

    let updated_files = file_watcher.update(0);

    assert!(updated_files.is_empty());
}

#[test]
fn does_not_return_changed_files_if_debounce_period_has_not_elapsed() {
    let mut file_watcher = FileWatcher::new(100);

    file_watcher.register_change(String::from("./resources/my_image.png"));
    let updated_files = file_watcher.update(0);

    assert!(updated_files.is_empty());
}

#[test]
fn returns_changed_files_after_debounce_period_has_elapsed() {
    let mut file_watcher = FileWatcher::new(100);

    file_watcher.register_change(String::from("./resources/my_image.png"));
    file_watcher.register_change(String::from("./resources/my_image2.png"));
    file_watcher.update(0);
    let updated_files = file_watcher.update(100);

    assert_eq!(
        updated_files,
        vec![
            String::from("./resources/my_image.png"),
            String::from("./resources/my_image2.png")
        ]
    );
}

#[test]
fn repeated_file_changes_are_filtered_out() {
    let mut file_watcher = FileWatcher::new(100);

    file_watcher.register_change(String::from("./resources/my_image.png"));
    file_watcher.register_change(String::from("./resources/my_image.png"));
    file_watcher.register_change(String::from("./resources/my_image.png"));
    file_watcher.update(0);
    let updated_files = file_watcher.update(100);

    assert_eq!(updated_files, vec![String::from("./resources/my_image.png")]);
}

#[test]
fn debounce_collapses_bursts_into_one_batch() {
    let mut file_watcher = FileWatcher::new(100);

    file_watcher.register_change(String::from("a.png"));
    file_watcher.register_change(String::from("b.json"));
    file_watcher.register_change(String::from("a.png"));
    assert!(file_watcher.update(0).is_empty());
    let batch = file_watcher.update(100);

    assert_eq!(batch, vec![String::from("a.png"), String::from("b.json")]);

    // the batch was emitted exactly once
    assert!(file_watcher.update(100).is_empty());
}

#[test]
fn debounce_defers_under_threshold() {
    let mut file_watcher = FileWatcher::new(100);

    file_watcher.register_change(String::from("a.png"));
    file_watcher.register_change(String::from("b.json"));
    file_watcher.register_change(String::from("a.png"));
    let batch = file_watcher.update(0);

    assert!(batch.is_empty());
}
