use kurobako::epi::{
    accept_ask_reply, accept_reply, decode_message_line, encode_message_line,
    EmbeddedScriptProblemRecipe, EmbeddedScriptSolverRecipe, ExternalProgramProblemRecipe,
    ExternalProgramSolverRecipe, Reply,
};
use kurobako::error::ErrorKind;
use kurobako::trial::IdGen;

#[test]
fn problem_cache_key_hashes_path_and_args() {
    let r = ExternalProgramProblemRecipe {
        path: "/bin/problem".to_owned(),
        args: vec!["--a".to_owned(), "1".to_owned()],
    };
    let expected: Vec<u8> = vec![
        155, 64, 148, 147, 74, 42, 234, 52, 235, 243, 183, 224, 57, 34, 214, 127, 138, 93, 226,
        47, 234, 145, 113, 247, 50, 50, 80, 83, 33, 66, 64, 190,
    ];
    assert_eq!(r.cache_key(), expected);
}

#[test]
fn solver_cache_key_hashes_program_and_args() {
    let r = ExternalProgramSolverRecipe {
        path: "solver.sh".to_owned(),
        args: vec!["x".to_owned()],
    };
    let expected: Vec<u8> = vec![
        241, 246, 224, 31, 196, 175, 61, 73, 192, 63, 230, 104, 10, 86, 75, 117, 70, 199, 21,
        175, 30, 188, 132, 253, 248, 173, 127, 0, 206, 128, 99, 218,
    ];
    assert_eq!(r.cache_key(b"#!/bin/sh\n"), expected);
}

#[test]
fn empty_cache_key_is_digest_of_nothing() {
    let r = ExternalProgramSolverRecipe { path: String::new(), args: vec![] };
    let expected: Vec<u8> = vec![
        227, 176, 196, 66, 152, 252, 28, 20, 154, 251, 244, 200, 153, 111, 185, 36, 39, 174, 65,
        228, 100, 155, 147, 76, 164, 149, 153, 27, 120, 82, 184, 85,
    ];
    assert_eq!(r.cache_key(b""), expected);
}

#[test]
fn embedded_scripts_become_external_programs() {
    let p = EmbeddedScriptProblemRecipe { script: "print(1)".to_owned(), args: vec!["a".to_owned()] };
    let e = p.to_external("/tmp/script");
    assert_eq!(e.path, "/tmp/script");
    assert_eq!(e.args, vec!["a".to_owned()]);
    let s = EmbeddedScriptSolverRecipe { script: String::new(), args: vec![] };
    let e = s.to_external("x");
    assert_eq!(e.path, "x");
    assert!(e.args.is_empty());
}

#[test]
fn message_lines_are_recognised() {
    let line = encode_message_line("{\"type\":\"TELL_REPLY\"}");
    assert_eq!(line, "kurobako:{\"type\":\"TELL_REPLY\"}\n");
    assert_eq!(decode_message_line(&line), Some(line.clone()));
    assert!(serde_json::from_str::<serde_json::Value>(&decode_message_line(&line).unwrap()).is_err());
    assert_eq!(decode_message_line("some log output"), None);
    assert_eq!(decode_message_line("kurobako"), None);
    assert_eq!(decode_message_line("kurobako:"), Some("kurobako:".to_owned()));
    assert_eq!(decode_message_line("log kurobako:{}"), None);
}

#[test]
fn replies_become_outcomes() {
    assert_eq!(accept_reply(Reply::Expected(3u32)).ok(), Some(3));
    let e = accept_reply::<u32>(Reply::Error { kind: ErrorKind::IoError, message: Some("broken".to_owned()) })
        .err()
        .unwrap();
    assert_eq!(e.kind, ErrorKind::IoError);
    assert_eq!(e.message, Some("broken".to_owned()));
    let e = accept_reply::<u32>(Reply::Unexpected("TellReply".to_owned())).err().unwrap();
    assert_eq!(e.kind, ErrorKind::Other);
    assert_eq!(e.message, Some("Unexpected message: TellReply".to_owned()));
}

#[test]
fn ask_reply_moves_the_generator_forward() {
    let mut idg = IdGen::new();
    idg.generate();
    let r = accept_ask_reply(&mut idg, Reply::Expected(("trial", 4)));
    assert_eq!(r.ok(), Some("trial"));
    assert_eq!(idg.peek_id().get(), 4);
}

#[test]
fn ask_reply_with_used_id_is_refused() {
    let mut idg = IdGen::new();
    idg.advance_to(5).unwrap();
    let r = accept_ask_reply(&mut idg, Reply::Expected(("trial", 3)));
    let e = r.err().unwrap();
    assert_eq!(e.kind, ErrorKind::InvalidInput);
    assert_eq!(e.message, Some("idg.peek_id().get()=5, next_trial_id=3".to_owned()));
    assert_eq!(idg.peek_id().get(), 5);
}

#[test]
fn ask_error_reply_keeps_the_generator() {
    let mut idg = IdGen::new();
    let r = accept_ask_reply::<u8>(&mut idg, Reply::Error { kind: ErrorKind::Other, message: None });
    assert_eq!(r.err().unwrap().kind, ErrorKind::Other);
    assert_eq!(idg.peek_id().get(), 0);
}
