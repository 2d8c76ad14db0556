use unc::tailwind::{build_tailwind_args, is_tailwind_enabled, TailwindConfig};

#[test]
fn test_build_tailwind_args() {
    let config = TailwindConfig {
        input: vec!["src/styles/tailwind.css".to_string()],
        output: "public/output.css".to_string(),
        watch_enabled: true,
        watch_always: true,
        optimize_minify: true,
        optimize_map: false,
    };

    let args = build_tailwind_args(&config);

    assert!(args.contains(&"-i".to_string()));
    assert!(args.contains(&"src/styles/tailwind.css".to_string()));
    assert!(args.contains(&"-o".to_string()));
    assert!(args.contains(&"public/output.css".to_string()));
    assert!(args.contains(&"-w=always".to_string()));
    assert!(args.contains(&"-m".to_string()));
    assert!(!args.contains(&"--map".to_string()));
}

#[test]
fn test_build_tailwind_args_minimal() {
    let config = TailwindConfig {
        input: vec!["input.css".to_string()],
        output: "output.css".to_string(),
        watch_enabled: false,
        watch_always: false,
        optimize_minify: false,
        optimize_map: false,
    };

    let args = build_tailwind_args(&config);

    assert!(args.contains(&"-i".to_string()));
    assert!(args.contains(&"input.css".to_string()));
    assert!(args.contains(&"-o".to_string()));
    assert!(args.contains(&"output.css".to_string()));
    assert!(!args.contains(&"-w".to_string()));
    assert!(!args.contains(&"-w=always".to_string()));
    assert!(!args.contains(&"-m".to_string()));
}

#[test]
fn tailwind_args_exact_order() {
    let config = TailwindConfig {
        input: vec!["a.css".to_string(), "b.css".to_string()],
        output: "out.css".to_string(),
        watch_enabled: true,
        watch_always: false,
        optimize_minify: true,
        optimize_map: true,
    };
    assert_eq!(
        build_tailwind_args(&config),
        vec!["-i", "a.css", "-o", "out.css", "-w", "-m", "--map"]
    );
}

#[test]
fn tailwind_args_without_input() {
    let config = TailwindConfig {
        input: vec![],
        output: "out.css".to_string(),
        watch_enabled: false,
        watch_always: true,
        optimize_minify: false,
        optimize_map: false,
    };
    assert_eq!(build_tailwind_args(&config), vec!["-o", "out.css"]);
}

#[test]
fn tailwind_enabled_needs_config_and_watch() {
    let mut config = TailwindConfig {
        input: vec![],
        output: "out.css".to_string(),
        watch_enabled: true,
        watch_always: false,
        optimize_minify: false,
        optimize_map: false,
    };
    assert!(is_tailwind_enabled(&Some(config.clone())));
    config.watch_enabled = false;
    assert!(!is_tailwind_enabled(&Some(config)));
    assert!(!is_tailwind_enabled(&None));
}
