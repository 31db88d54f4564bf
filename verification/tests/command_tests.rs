use display_switch::command::{
    command_result, invocation_of, parse_subcommand, run_command, Invocation, MissingClosingQuote,
};

fn run(invocation: &Result<Option<Invocation>, MissingClosingQuote>) -> (String, Vec<String>) {
    match invocation {
        Ok(Some(run)) => (run.program.clone(), run.arguments.clone()),
        _ => panic!("nothing to run"),
    }
}

#[test]
fn command_line_is_split_at_semicolons_and_trimmed() {
    let plan = run_command("  echo one ;echo  two;\tsay 'a b' \"c d\" ");
    let texts: Vec<&str> = plan.iter().map(|sub| sub.text.as_str()).collect();
    assert_eq!(texts, vec!["echo one", "echo  two", "say 'a b' \"c d\""]);
    assert_eq!(run(&plan[0].invocation), (String::from("echo"), vec![String::from("one")]));
    assert_eq!(run(&plan[1].invocation), (String::from("echo"), vec![String::from("two")]));
    assert_eq!(
        run(&plan[2].invocation),
        (String::from("say"), vec![String::from("a b"), String::from("c d")])
    );
}

#[test]
fn empty_subcommands_are_left_out() {
    assert!(run_command("").is_empty());
    assert!(run_command("   ").is_empty());
    assert!(run_command(";").is_empty());
    assert!(run_command(" ; ;\n;").is_empty());
    let plan = run_command(";a;;b;");
    let texts: Vec<&str> = plan.iter().map(|sub| sub.text.as_str()).collect();
    assert_eq!(texts, vec!["a", "b"]);
}

#[test]
fn failing_subcommand_does_not_stop_the_others() {
    let plan = run_command("echo 'open; echo fine");
    assert_eq!(plan.len(), 2);
    assert_eq!(plan[0].text, "echo 'open");
    assert!(matches!(plan[0].invocation, Err(MissingClosingQuote)));
    assert_eq!(plan[1].text, "echo fine");
    assert_eq!(run(&plan[1].invocation), (String::from("echo"), vec![String::from("fine")]));
}

#[test]
fn subcommand_without_words_runs_nothing() {
    assert!(matches!(parse_subcommand("# only a comment"), Ok(None)));
    assert!(matches!(parse_subcommand(""), Ok(None)));
    let plan = run_command("# note; ls");
    assert_eq!(plan.len(), 2);
    assert!(matches!(plan[0].invocation, Ok(None)));
    assert_eq!(run(&plan[1].invocation), (String::from("ls"), Vec::<String>::new()));
}

#[test]
fn words_are_split_as_a_shell_would() {
    assert_eq!(
        run(&parse_subcommand("xrandr --output 'DP 1' --off")),
        (
            String::from("xrandr"),
            vec![String::from("--output"), String::from("DP 1"), String::from("--off")]
        )
    );
    assert_eq!(
        run(&parse_subcommand("a\\ b \"c\\\"d\" e''f")),
        (String::from("a b"), vec![String::from("c\"d"), String::from("ef")])
    );
    assert!(matches!(parse_subcommand("echo \"open"), Err(MissingClosingQuote)));
    assert!(matches!(parse_subcommand("'"), Err(MissingClosingQuote)));
}

#[test]
fn first_word_is_the_program() {
    let words = vec![String::from("prog"), String::from("x"), String::from("y")];
    assert_eq!(
        run(&invocation_of(Ok(words))),
        (String::from("prog"), vec![String::from("x"), String::from("y")])
    );
    assert_eq!(
        run(&invocation_of(Ok(vec![String::from("alone")]))),
        (String::from("alone"), Vec::<String>::new())
    );
    assert!(matches!(invocation_of(Ok(Vec::new())), Ok(None)));
    assert!(matches!(invocation_of(Err(MissingClosingQuote)), Err(MissingClosingQuote)));
}

#[test]
fn successful_run_reports_nothing() {
    assert_eq!(command_result(true, Some(0), b"out".to_vec(), b"err".to_vec()), Ok(()));
    assert_eq!(command_result(true, None, Vec::new(), Vec::new()), Ok(()));
}

#[test]
fn failed_run_reports_status_and_streams() {
    assert_eq!(
        command_result(false, Some(2), b"hello".to_vec(), b"oops\n".to_vec()),
        Err(String::from("Exited with status 2\n Stdout = [hello]\n Stderr = [oops\n]\n"))
    );
    assert_eq!(
        command_result(false, Some(-1), Vec::new(), Vec::new()),
        Err(String::from("Exited with status -1\n No stdout\n No stderr\n"))
    );
    assert_eq!(
        command_result(false, None, Vec::new(), b"x".to_vec()),
        Err(String::from("Exited because of a signal\n No stdout\n Stderr = [x]\n"))
    );
}

#[test]
fn output_that_is_not_utf8_is_reported_as_such() {
    assert_eq!(
        command_result(false, Some(1), vec![0xff, 0xfe], vec![0xc3, 0x28]),
        Err(String::from("Exited with status 1\n Stdout was not UTF-8 Stderr was not UTF-8"))
    );
    assert_eq!(
        command_result(false, Some(1), "é日".as_bytes().to_vec(), vec![0x80]),
        Err(String::from("Exited with status 1\n Stdout = [é日]\n Stderr was not UTF-8"))
    );
}
