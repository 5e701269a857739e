use mkarchqemu::MkArchQemuParams;

fn params(img_size: Option<&str>, swap: Option<&str>) -> MkArchQemuParams {
    MkArchQemuParams {
        out_dir: "out".to_string(),
        work_dir: "work".to_string(),
        img_size: img_size.map(|s| s.to_string()),
        swap: swap.map(|s| s.to_string()),
        profile_dir: "profile".to_string(),
    }
}

#[test]
fn command_args_with_neither_option() {
    assert_eq!(params(None, None).command_args(), vec!["-o", "out", "-w", "work", "profile"]);
}

#[test]
fn command_args_with_image_size_only() {
    assert_eq!(
        params(Some("8G"), None).command_args(),
        vec!["-o", "out", "-w", "work", "-s", "8G", "profile"]
    );
}

#[test]
fn command_args_with_swap_only() {
    assert_eq!(
        params(None, Some("512M")).command_args(),
        vec!["-o", "out", "-w", "work", "--swap=512M", "profile"]
    );
}

#[test]
fn command_args_with_both_options() {
    assert_eq!(
        params(Some("8G"), Some("512M")).command_args(),
        vec!["-o", "out", "-w", "work", "-s", "8G", "--swap=512M", "profile"]
    );
}

#[test]
fn command_args_pass_present_but_empty_values_on() {
    assert_eq!(
        params(Some(""), Some("")).command_args(),
        vec!["-o", "out", "-w", "work", "-s", "", "--swap=", "profile"]
    );
}

#[test]
fn command_args_keep_spaces_inside_one_argument() {
    let mut p = params(None, None);
    p.out_dir = "my out".to_string();
    p.profile_dir = "-x".to_string();
    assert_eq!(p.command_args(), vec!["-o", "my out", "-w", "work", "-x"]);
}

#[test]
fn params_clone_is_equal() {
    let p = params(Some("1G"), None);
    let copy = p.clone();
    assert_eq!(copy, p);
    assert_eq!(copy.img_size, Some("1G".to_string()));
    assert_eq!(copy.swap, None);
}
