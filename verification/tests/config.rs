use hugo_to_json::config::Config;

#[test]
fn no_args_produces_defaults() {
    let args: [String; 0] = [];
    let config = Config::new(&args);
    assert_eq!(config.scan_path, "./content/");
    assert_eq!(config.index_path, "./static/index.json");
}

#[test]
fn first_arg_sets_scan_path() {
    let args = [String::from("This is the path of the executable"), String::from("hello")];
    let config = Config::new(&args);
    assert_eq!(config.scan_path, "hello");
}

#[test]
fn second_arg_sets_index_path() {
    let args = [
        String::from("This is the path of the executable"),
        String::from("hello"),
        String::from("world"),
    ];
    let config = Config::new(&args);
    assert_eq!(config.index_path, "world");
}

#[test]
fn first_arg_alone_keeps_default_index_path() {
    let args = [String::from("exe"), String::from("hello")];
    let config = Config::new(&args);
    assert_eq!(config.scan_path, "hello");
    assert_eq!(config.index_path, "./static/index.json");
}
