use pmcfg::commands::Command;
use pmcfg::errors::CliConfigError;

#[test]
fn check_cli_arguments() {
    let cmd = None;
    let arg1 = None;
    let arg2 = None;
    let result = Command::from_cli(cmd, arg1, arg2);
    assert_eq!(
        result.err().unwrap(),
        CliConfigError::CliArgError("Missing command".to_owned())
    );

    let bad_cmd = String::from("top");
    let cmd = Some(&bad_cmd);
    let result = Command::from_cli(cmd, arg1, arg2);
    assert_eq!(
        result.err().unwrap(),
        CliConfigError::CliArgError("Invalid command".to_owned())
    );

    let ok_cmd = String::from("cat");
    let cmd = Some(&ok_cmd);
    let result = Command::from_cli(cmd, arg1, arg2);
    assert_eq!(
        result.err().unwrap(),
        CliConfigError::CliArgError("Missing argument".to_owned())
    );

    let ok_cmd = String::from("cat");
    let ok_arg1 = String::from("1.10.1.conf");
    let cmd = Some(&ok_cmd);
    let arg1 = Some(&ok_arg1);
    let result = Command::from_cli(cmd, arg1, arg2);
    assert_eq!(result.ok().unwrap(), Command::Cat { file: ok_arg1 });

    let ok_cmd = String::from("bump");
    let ok_arg1 = String::from("1.10.1.conf");
    let cmd = Some(&ok_cmd);
    let arg1 = Some(&ok_arg1);
    let result = Command::from_cli(cmd, arg1, arg2);
    assert_eq!(
        result.err().unwrap(),
        CliConfigError::CliArgError("Missing argument".to_owned())
    );

    let ok_cmd = String::from("bump");
    let ok_arg1 = String::from("1.10.1");
    let ok_arg2 = String::from("5.5.5");
    let cmd = Some(&ok_cmd);
    let arg1 = Some(&ok_arg1);
    let arg2 = Some(&ok_arg2);
    let result = Command::from_cli(cmd, arg1, arg2);
    assert_eq!(
        result.ok().unwrap(),
        Command::Bump {
            file_from: "1.10.1.conf".to_owned(),
            file_to: "5.5.5.conf".to_owned()
        }
    );
}

#[test]
fn list_commands_need_no_arguments() {
    let ls = String::from("ls");
    let result = Command::from_cli(Some(&ls), None, None);
    assert_eq!(result.ok().unwrap(), Command::Ls);

    let lslo = String::from("lslo");
    let ignored1 = String::from("a.conf");
    let ignored2 = String::from("b.conf");
    let result = Command::from_cli(Some(&lslo), Some(&ignored1), Some(&ignored2));
    assert_eq!(result.ok().unwrap(), Command::LsLo);
}

#[test]
fn single_file_commands_hold_the_filename_verbatim() {
    let file = String::from("2.1.13.conf");
    for (verb, expected) in [
        ("edit", Command::Edit { file: file.clone() }),
        ("get", Command::Get { file: file.clone() }),
        ("put", Command::Put { file: file.clone() }),
    ] {
        let verb = String::from(verb);
        let result = Command::from_cli(Some(&verb), Some(&file), None);
        assert_eq!(result.ok().unwrap(), expected);
    }
}

#[test]
fn single_file_commands_reject_a_missing_filename() {
    for verb in ["edit", "get", "put"] {
        let verb = String::from(verb);
        let result = Command::from_cli(Some(&verb), None, None);
        assert_eq!(
            result.err().unwrap(),
            CliConfigError::CliArgError("Missing argument".to_owned())
        );
    }
}

#[test]
fn bump_rejects_a_missing_second_argument() {
    let verb = String::from("bump");
    let arg1 = String::from("1.10.1");
    let result = Command::from_cli(Some(&verb), Some(&arg1), None);
    assert_eq!(
        result.err().unwrap(),
        CliConfigError::CliArgError("Missing argument".to_owned())
    );
}

#[test]
fn bump_suffixes_both_version_labels() {
    let verb = String::from("bump");
    let arg1 = String::from("1.10.1");
    let arg2 = String::from("5.5.5");
    let result = Command::from_cli(Some(&verb), Some(&arg1), Some(&arg2));
    assert_eq!(
        result.ok().unwrap(),
        Command::Bump {
            file_from: "1.10.1.conf".to_owned(),
            file_to: "5.5.5.conf".to_owned()
        }
    );
}

#[test]
fn diff_holds_both_filenames_unsuffixed() {
    let verb = String::from("diff");
    let arg1 = String::from("a.conf");
    let arg2 = String::from("b.conf");
    let result = Command::from_cli(Some(&verb), Some(&arg1), Some(&arg2));
    assert_eq!(
        result.ok().unwrap(),
        Command::Diff {
            file_a: "a.conf".to_owned(),
            file_b: "b.conf".to_owned()
        }
    );
}

#[test]
fn diff_rejects_missing_filenames() {
    let verb = String::from("diff");
    let arg1 = String::from("a.conf");
    let result = Command::from_cli(Some(&verb), Some(&arg1), None);
    assert_eq!(
        result.err().unwrap(),
        CliConfigError::CliArgError("Missing argument".to_owned())
    );
    let result = Command::from_cli(Some(&verb), None, None);
    assert_eq!(
        result.err().unwrap(),
        CliConfigError::CliArgError("Missing argument".to_owned())
    );
}

#[test]
fn bump_to_conf_appends_the_suffix() {
    assert_eq!(pmcfg::commands::bump_to_conf("1.10.1"), "1.10.1.conf");
    assert_eq!(pmcfg::commands::bump_to_conf(""), ".conf");
}
