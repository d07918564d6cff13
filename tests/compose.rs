use fetch_rs::cfg::{load_config, Config};
use fetch_rs::out::{
    add_line, collect_results, overlay, compose_lines, selected_kinds, OutputType, ResultSet, COLOR_RESET,
    LOGO_OVERFLOW_OFFSET,
};

fn all_off() -> Config {
    Config {
        show_distro: false,
        show_os: false,
        show_host: false,
        show_kernel: false,
        show_uptime: false,
        show_packages: false,
        show_shell: false,
        show_resolution: false,
        show_de: false,
        show_wm: false,
        show_wm_theme: false,
        show_theme: false,
        show_icons: false,
        show_terminal: false,
        show_terminal_font: false,
        show_cpu: false,
        show_gpu: false,
        show_memory: false,
        show_cpu_usage: false,
        show_disk_usage: false,
        show_battery: false,
        show_font: false,
        show_song: false,
        show_local_ip: false,
        show_public_ip: false,
        show_users: false,
        show_birthday: false,
        show_colors: false,
    }
}

fn pad() -> String {
    " ".repeat(LOGO_OVERFLOW_OFFSET)
}

fn builtin(kind: OutputType, text: &str) -> Option<(OutputType, String)> {
    Some((kind, text.to_string()))
}

#[test]
fn all_toggles_off_no_plugins_displays_nothing() {
    let cfg = all_off();
    assert!(selected_kinds(&cfg).is_empty());
    let rs = collect_results(Vec::new(), Vec::new());
    assert!(compose_lines(&rs).is_empty());
}

#[test]
fn os_only_scenario() {
    let mut cfg = all_off();
    cfg.show_os = true;
    assert_eq!(selected_kinds(&cfg), vec![OutputType::OS]);
    let rs = collect_results(
        vec![builtin(OutputType::OS, "OS: ExampleOS 1.0 (Stable) x86_64")],
        Vec::new(),
    );
    assert_eq!(compose_lines(&rs), vec!["OS: ExampleOS 1.0 (Stable) x86_64".to_string()]);
}

#[test]
fn distro_and_os_scenario() {
    let mut cfg = all_off();
    cfg.show_distro = true;
    cfg.show_os = true;
    assert_eq!(selected_kinds(&cfg), vec![OutputType::Distro, OutputType::OS]);
    let rs = collect_results(
        vec![builtin(OutputType::OS, "OS: X"), builtin(OutputType::Distro, "L0\nL1\nL2")],
        Vec::new(),
    );
    let lines = compose_lines(&rs);
    assert_eq!(lines.len(), 3);
    assert_eq!(lines[0], format!("L0{}OS: X", COLOR_RESET));
    assert_eq!(lines[1], format!("L1{}", COLOR_RESET));
    assert_eq!(lines[2], format!("L2{}", COLOR_RESET));
}

#[test]
fn single_plugin_scenario() {
    let cfg = all_off();
    assert!(selected_kinds(&cfg).is_empty());
    let rs = collect_results(Vec::new(), vec![Some("Packages: 42".to_string())]);
    assert_eq!(compose_lines(&rs), vec!["Packages: 42".to_string()]);
}

#[test]
fn empty_provider_text_gives_no_line() {
    let rs = collect_results(
        vec![builtin(OutputType::OS, ""), builtin(OutputType::Kernel, "Kernel: 6.6.32")],
        vec![Some(String::new()), Some("P".to_string())],
    );
    assert_eq!(compose_lines(&rs), vec!["Kernel: 6.6.32".to_string(), "P".to_string()]);
}

#[test]
fn failed_tasks_are_dropped() {
    let rs = collect_results(
        vec![None, builtin(OutputType::Uptime, "Uptime: 1hr 0m 0s"), None],
        vec![None, Some("P".to_string())],
    );
    assert_eq!(compose_lines(&rs), vec!["Uptime: 1hr 0m 0s".to_string(), "P".to_string()]);
}

#[test]
fn builtins_in_declared_order_whatever_the_completion_order() {
    let a = vec![
        builtin(OutputType::Uptime, "U"),
        builtin(OutputType::OS, "O"),
        builtin(OutputType::Kernel, "K"),
    ];
    let b = vec![
        builtin(OutputType::Kernel, "K"),
        builtin(OutputType::Uptime, "U"),
        builtin(OutputType::OS, "O"),
    ];
    let plugins = vec![Some("plugin-a".to_string()), Some("plugin-b".to_string())];
    let la = compose_lines(&collect_results(a, plugins.clone()));
    let lb = compose_lines(&collect_results(b, plugins));
    let expected: Vec<String> = ["O", "K", "U", "plugin-a", "plugin-b"].iter().map(|s| s.to_string()).collect();
    assert_eq!(la, expected);
    assert_eq!(lb, expected);
}

#[test]
fn logo_with_exactly_as_many_rows_as_fields() {
    let rs = collect_results(
        vec![
            builtin(OutputType::Distro, "AA\nBB"),
            builtin(OutputType::Kernel, "K"),
        ],
        vec![Some("P".to_string())],
    );
    let lines = compose_lines(&rs);
    assert_eq!(lines, vec![format!("AA{}K", COLOR_RESET), format!("BB{}P", COLOR_RESET)]);
}

#[test]
fn logo_taller_than_text() {
    let rs = collect_results(vec![builtin(OutputType::Distro, "a\nb\nc\nd")], Vec::new());
    let lines = compose_lines(&rs);
    let expected: Vec<String> = ["a", "b", "c", "d"].iter().map(|s| format!("{}{}", s, COLOR_RESET)).collect();
    assert_eq!(lines, expected);
}

#[test]
fn text_below_a_short_logo_is_padded() {
    let rs = collect_results(
        vec![
            builtin(OutputType::Distro, "a"),
            builtin(OutputType::OS, "O"),
            builtin(OutputType::Kernel, "K"),
        ],
        vec![Some("P".to_string())],
    );
    let lines = compose_lines(&rs);
    assert_eq!(
        lines,
        vec![format!("a{}O", COLOR_RESET), format!("{}K", pad()), format!("{}P", pad())]
    );
    assert_eq!(pad().len(), 46);
}

#[test]
fn logo_lines_drop_line_endings() {
    let rs = collect_results(vec![builtin(OutputType::Distro, "x\r\ny\n")], Vec::new());
    assert_eq!(compose_lines(&rs), vec![format!("x{}", COLOR_RESET), format!("y{}", COLOR_RESET)]);
}

#[test]
fn result_set_insert_and_fields() {
    let mut rs = ResultSet::new();
    rs.insert(OutputType::Kernel, "K".to_string());
    rs.insert(OutputType::OS, String::new());
    rs.push_plugin("P".to_string());
    rs.push_plugin(String::new());
    assert_eq!(rs.field_texts(), vec!["K".to_string(), "P".to_string()]);
    assert_eq!(compose_lines(&rs), vec!["K".to_string(), "P".to_string()]);
}

#[test]
fn add_line_beside_existing_row() {
    let mut lines = vec!["logo".to_string()];
    let mut ind: usize = 0;
    add_line("text", "  ", &mut lines, &mut ind);
    assert_eq!(lines, vec!["logotext".to_string()]);
    assert_eq!(ind, 1);
    add_line("more", "  ", &mut lines, &mut ind);
    assert_eq!(lines, vec!["logotext".to_string(), "  more".to_string()]);
    assert_eq!(ind, 2);
}

#[test]
fn selected_kinds_follow_declared_order() {
    let cfg = Config::default();
    assert_eq!(
        selected_kinds(&cfg),
        vec![OutputType::Distro, OutputType::OS, OutputType::Kernel, OutputType::Uptime]
    );
    let mut cfg = all_off();
    cfg.show_uptime = true;
    cfg.show_kernel = true;
    assert_eq!(selected_kinds(&cfg), vec![OutputType::Kernel, OutputType::Uptime]);
}

#[test]
fn default_config_values() {
    let cfg = Config::default();
    assert!(cfg.show_distro && cfg.show_os && cfg.show_host && cfg.show_kernel && cfg.show_uptime);
    assert!(cfg.show_memory && cfg.show_colors);
    assert!(!cfg.show_cpu_usage && !cfg.show_battery && !cfg.show_birthday && !cfg.show_public_ip);
}

#[test]
fn load_config_falls_back_to_default() {
    assert_eq!(load_config(None), Config::default());
    let stored = all_off();
    assert_eq!(load_config(Some(stored)), stored);
}

#[test]
fn overlay_without_logo() {
    let fields = vec!["a".to_string(), "b".to_string()];
    assert_eq!(overlay(None, &fields), fields);
}

#[test]
fn overlay_with_logo_rows() {
    let rows = vec!["r0".to_string()];
    let fields = vec!["a".to_string(), "b".to_string()];
    assert_eq!(
        overlay(Some(rows), &fields),
        vec![format!("r0{}a", COLOR_RESET), format!("{}b", pad())]
    );
}
