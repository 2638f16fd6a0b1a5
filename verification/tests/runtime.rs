use greed_compute::json::{parse_json, Json};
use greed_compute::runtime::{
    checkpoint_command, checkpoint_of, clear_command, execute_command, execution_of, install_command, install_of, is_alive, restore_command,
    read_checkpoint, read_ready, read_report, read_restore, read_stream, restore_of, spawn_outcome, stream_event, worker_env, Exchange, ProcessState, Startup, StreamEvent,
};

fn line(s: &str) -> Exchange {
    Exchange::Line(s.to_string())
}

#[test]
fn commands_are_lines() {
    assert_eq!(execute_command("print(1)"), "{\"type\":\"execute\",\"code\":\"print(1)\"}\n");
    assert_eq!(execute_command("a\nb\"\\"), "{\"type\":\"execute\",\"code\":\"a\\nb\\\"\\\\\"}\n");
    assert_eq!(clear_command(), "{\"type\":\"clear\"}\n");
    assert_eq!(install_command(&vec!["a".to_string()]), "{\"packages\":[\"a\"],\"type\":\"install\"}\n");
    assert_eq!(checkpoint_command("/p"), "{\"path\":\"/p\",\"type\":\"checkpoint\"}\n");
    assert_eq!(restore_command("/p"), "{\"path\":\"/p\",\"type\":\"restore\"}\n");
    for code in ["", "x = 1\r\n\ty", "\u{2028}é\u{1}"] {
        let c = execute_command(code);
        assert_eq!(c.matches('\n').count(), 1);
        assert!(c.ends_with('\n'));
        match parse_json(c.as_bytes()) {
            Ok(j) => assert_eq!(j.get_str("code"), Some(code)),
            Err(e) => panic!("{}", e),
        }
    }
}

#[test]
fn report_of_a_worker() {
    let x = execution_of(&line(
        " {\"stdout\":\"out\",\"result\":\"42\",\"error\":null,\"duration_ms\":13,\"plots\":[\"a\",1,\"b\"],\"html\":\"<t>\",\"output_tokens\":5,\"state_tokens\":7}\n",
    ));
    assert_eq!(x.stdout, "out");
    assert_eq!(x.result, Some("42".to_string()));
    assert_eq!(x.error, None);
    assert_eq!(x.duration_ms, 13);
    assert_eq!(x.plots, vec!["a".to_string(), "b".to_string()]);
    assert_eq!(x.html, Some("<t>".to_string()));
    assert_eq!((x.output_tokens, x.state_tokens), (5, 7));
}

#[test]
fn report_with_nothing_in_it() {
    let x = execution_of(&line("{\"stdout\":3,\"duration_ms\":-1,\"error\":\"boom\"}"));
    assert_eq!(x.stdout, "");
    assert_eq!(x.result, None);
    assert_eq!(x.error, Some("boom".to_string()));
    assert_eq!(x.duration_ms, 0);
    assert!(x.plots.is_empty());
    let x = execution_of(&line("[1]"));
    assert_eq!((x.stdout.as_str(), x.error), ("", None));
}

#[test]
fn failed_exchanges() {
    let e = |x: Exchange| {
        let r = execution_of(&x);
        assert_eq!(r.stdout, "");
        assert_eq!(r.result, None);
        (r.error.unwrap(), r.duration_ms)
    };
    assert_eq!(e(Exchange::WriteFailed("w".to_string())), ("Failed to write to worker stdin: w".to_string(), 0));
    assert_eq!(e(Exchange::FlushFailed("f".to_string())), ("Failed to flush worker stdin: f".to_string(), 0));
    assert_eq!(e(Exchange::Closed), ("Worker process died during execution".to_string(), 0));
    assert_eq!(e(Exchange::ReadFailed("r".to_string())), ("IO error reading from worker: r".to_string(), 0));
    assert_eq!(e(Exchange::TimedOut(35)), ("Execution timed out (35s)".to_string(), 35_000));
    assert_eq!(e(Exchange::TimedOut(605)), ("Execution timed out (605s)".to_string(), 605_000));
    assert_eq!(e(line("oops")), ("Invalid JSON from worker: expected value at line 1 column 1".to_string(), 0));
}

#[test]
fn checkpoints_and_restores() {
    assert_eq!(checkpoint_of(&line("{\"size_bytes\":9}")), (9, None));
    assert_eq!(checkpoint_of(&line("{\"error\":\"no\"}")), (0, Some("no".to_string())));
    assert_eq!(checkpoint_of(&Exchange::Closed), (0, Some("Worker process died during execution".to_string())));
    assert_eq!(restore_of(&line("{\"vars\":[\"x\",\"y\"]}")), (vec!["x".to_string(), "y".to_string()], None));
    assert_eq!(restore_of(&Exchange::TimedOut(35)), (vec![], Some("Execution timed out (35s)".to_string())));
}

#[test]
fn streamed_lines() {
    match stream_event(&line("{\"type\":\"stream\",\"data\":\"hi\\n\"}\n")) {
        StreamEvent::Output(s) => assert_eq!(s, "{\"type\":\"stream\",\"data\":\"hi\\n\"}"),
        _ => panic!("over"),
    }
    match stream_event(&line("{\"type\":\"result\",\"stdout\":\"hi\"}")) {
        StreamEvent::Done(x) => assert_eq!(x.stdout, "hi"),
        _ => panic!("output"),
    }
    match stream_event(&line("?")) {
        StreamEvent::Done(x) => assert!(x.error.is_some()),
        _ => panic!("output"),
    }
    match stream_event(&Exchange::TimedOut(35)) {
        StreamEvent::Done(x) => assert_eq!(x.duration_ms, 35_000),
        _ => panic!("output"),
    }
}

#[test]
fn workers_start() {
    assert_eq!(spawn_outcome(&Startup::Line("{\"type\": \"ready\"}\n".to_string())), Ok(()));
    let e = |s: Startup| spawn_outcome(&s).unwrap_err();
    assert_eq!(e(Startup::SpawnFailed("x".to_string())), "Failed to spawn Python worker: x");
    assert_eq!(e(Startup::NoStdin), "Failed to capture worker stdin");
    assert_eq!(e(Startup::NoStdout), "Failed to capture worker stdout");
    assert_eq!(e(Startup::Closed), "Worker process exited before sending ready signal");
    assert_eq!(e(Startup::Line(" {\"type\":1} \n".to_string())), "Expected ready signal from worker, got: {\"type\":1}");
    assert!(e(Startup::Line("x".to_string())).starts_with("Invalid ready message from worker: "));
    assert_eq!(e(Startup::ReadFailed("x".to_string())), "IO error reading worker ready signal: x");
    assert_eq!(e(Startup::TimedOut), "Timeout waiting for worker ready signal (30s)");
}

#[test]
fn environment_and_life_of_a_worker() {
    let env = worker_env("/w");
    assert_eq!(env[0], ("GREED_WORKSPACE".to_string(), "/w".to_string()));
    assert_eq!(env[1], ("GREED_MAX_MEMORY_MB".to_string(), "512".to_string()));
    assert_eq!(env[2], ("GREED_MAX_CPU_SECONDS".to_string(), "30".to_string()));
    assert_eq!(env[3], ("GREED_PRELOAD".to_string(), "1".to_string()));
    assert!(is_alive(&ProcessState::Running));
    assert!(!is_alive(&ProcessState::Exited));
    assert!(!is_alive(&ProcessState::Unknown));
}

#[test]
fn json_is_read() {
    let j = match parse_json(b"{\"a\":{\"b\":[{\"c\":\"x\"},7]},\"n\":-3,\"u\":18446744073709551615,\"f\":1.5,\"k\":1,\"k\":2}") {
        Ok(j) => j,
        Err(e) => panic!("{}", e),
    };
    assert_eq!(j.pointer_text(&vec!["a", "b", "0", "c"]), "x");
    assert_eq!(j.pointer_text(&vec!["a", "b", "1", "c"]), "");
    assert!(j.pointer(&vec!["a", "b", "2"]).is_none());
    assert!(j.pointer(&vec!["a", "b", "00"]).is_none());
    assert!(j.pointer(&vec!["a", "b", "-1"]).is_none());
    assert_eq!(j.get_i64("n"), Some(-3));
    assert_eq!(j.get_u64("n"), None);
    assert_eq!(j.get_u64("u"), Some(u64::MAX));
    assert_eq!(j.get_i64("u"), None);
    assert_eq!(j.get_u64("f"), None);
    assert_eq!(j.get_u64("k"), Some(2));
    assert!(matches!(j.get("f"), Some(Json::Float(_))));
    assert_eq!(greed_compute::json::print_json(&j.copy()), "{\"a\":{\"b\":[{\"c\":\"x\"},7]},\"f\":1.5,\"k\":2,\"n\":-3,\"u\":18446744073709551615}");
    assert!(Json::Null.get("a").is_none());
}

#[test]
fn installations_have_more_time() {
    let x = install_of(&Exchange::TimedOut(120));
    assert_eq!((x.error, x.duration_ms), (Some("Install timed out (120s)".to_string()), 120_000));
    let x = install_of(&line("{\"stdout\":\"ok\",\"duration_ms\":4}"));
    assert_eq!((x.stdout.as_str(), x.error, x.duration_ms), ("ok", None, 4));
    assert_eq!(install_of(&Exchange::Closed).error, Some("Worker process died during execution".to_string()));
}

fn message(text: &str) -> Json {
    match parse_json(text.as_bytes()) {
        Ok(j) => j,
        Err(e) => panic!("{}", e),
    }
}

#[test]
fn messages_are_read() {
    let x = read_report(&message("{\"stdout\":\"o\",\"result\":\"3\",\"duration_ms\":4,\"plots\":[\"p\",\"q\"],\"output_tokens\":5}"));
    assert_eq!((x.stdout.as_str(), x.result, x.error, x.duration_ms), ("o", Some("3".to_string()), None, 4));
    assert_eq!((x.plots.len(), x.output_tokens, x.state_tokens), (2, 5, 0));
    assert_eq!(read_checkpoint(&message("{\"size_bytes\":9,\"error\":\"e\"}")), (9, Some("e".to_string())));
    assert_eq!(read_checkpoint(&message("{\"size_bytes\":-1}")), (0, None));
    assert_eq!(read_restore(&message("{\"vars\":[\"x\"]}")), (vec!["x".to_string()], None));
    assert_eq!(read_restore(&message("{\"error\":\"e\"}")), (vec![], Some("e".to_string())));
    assert!(matches!(read_stream("L", &message("{\"type\":\"stream\"}")), StreamEvent::Output(s) if s == "L"));
    assert!(matches!(read_stream("L", &message("{\"type\":\"result\",\"stdout\":\"o\"}")), StreamEvent::Done(x) if x.stdout == "o"));
    assert_eq!(read_ready("L", &message("{\"type\":\"ready\"}")), Ok(()));
    assert_eq!(read_ready("L", &message("[]")), Err("Expected ready signal from worker, got: L".to_string()));
}
