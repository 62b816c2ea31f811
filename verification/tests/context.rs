use gluegun_core::cli::{generate_with, GenerateCx, GlueGunHelper, RunError};
use gluegun_core::json::Json;
use gluegun_core::payload::{decode_payload, DecodeError, GlueGunDestinationCrate};

fn bytes(s: &str) -> Vec<u8> {
    s.as_bytes().to_vec()
}

fn sample_cx() -> GenerateCx {
    GenerateCx::new(
        Json::Null,
        GlueGunDestinationCrate {
            path: "/tmp/out".to_string(),
            crate_name: Some("foo_glue".to_string()),
        },
    )
}

#[test]
fn accessors_return_the_decoded_values() {
    let cx = sample_cx();
    assert_eq!(*cx.idl(), Json::Null);
    assert_eq!(cx.dest_crate().path, "/tmp/out");
    assert_eq!(cx.dest_crate().crate_name, Some("foo_glue".to_string()));
}

#[test]
fn builders_are_minted_from_the_descriptor() {
    let mut cx = sample_cx();
    let lib = cx.create_library_crate();
    assert_eq!(lib.path().as_str(), "/tmp/out");
    assert_eq!(*lib.crate_name(), Some("foo_glue".to_string()));
}

#[test]
fn builders_from_one_context_are_independent() {
    let mut cx = sample_cx();
    let first = cx.create_library_crate();
    let second = cx.create_library_crate();
    assert_eq!(first, second);
    // Dropping one builder leaves the other, and the context, untouched.
    drop(first);
    assert_eq!(second.path().as_str(), "/tmp/out");
    assert_eq!(cx.dest_crate().path, "/tmp/out");
    let third = cx.create_library_crate();
    assert_eq!(third, second);
}

struct RecordingHelper;

impl GlueGunHelper for RecordingHelper {
    fn name(&self) -> String {
        "recording".to_string()
    }

    fn generate(self, cx: &mut GenerateCx) -> Result<(), anyhow::Error> {
        assert_eq!(cx.dest_crate().crate_name, Some("foo_glue".to_string()));
        assert_eq!(cx.dest_crate().path, "/tmp/out");
        assert_eq!(*cx.idl(), Json::Obj(Vec::new()));
        let lib = cx.create_library_crate();
        assert_eq!(lib.path().as_str(), "/tmp/out");
        Ok(())
    }
}

struct FailingHelper;

impl GlueGunHelper for FailingHelper {
    fn name(&self) -> String {
        "failing".to_string()
    }

    fn generate(self, _cx: &mut GenerateCx) -> Result<(), anyhow::Error> {
        Err(anyhow::Error::msg("generation went wrong"))
    }
}

#[test]
fn full_run_reaches_the_helper_with_the_context() {
    let input = bytes(r#"{"idl": {}, "dest_crate": {"path": "/tmp/out", "crate_name": "foo_glue"}}"#);
    let r = generate_with(RecordingHelper, &input);
    assert!(r.is_ok());
}

#[test]
fn helper_failure_comes_back_as_generation_error() {
    let input = bytes(r#"{"idl": {}, "dest_crate": {"path": "/tmp/out", "crate_name": "foo_glue"}}"#);
    match generate_with(FailingHelper, &input) {
        Err(RunError::GenerationError(e)) => {
            assert_eq!(e.to_string(), "generation went wrong");
        }
        _ => panic!("expected GenerationError"),
    }
}

#[test]
fn bad_payload_never_reaches_the_helper() {
    struct MustNotRun;
    impl GlueGunHelper for MustNotRun {
        fn name(&self) -> String {
            "must_not_run".to_string()
        }
        fn generate(self, _cx: &mut GenerateCx) -> Result<(), anyhow::Error> {
            panic!("helper must not be invoked on a bad payload");
        }
    }
    let input = bytes("not json");
    match generate_with(MustNotRun, &input) {
        Err(RunError::PayloadDecodeError(DecodeError::Syntax(msg))) => {
            assert!(!msg.is_empty());
        }
        _ => panic!("expected PayloadDecodeError"),
    }
}

#[test]
fn decoded_payload_feeds_the_context_unchanged() {
    let input =
        bytes(r#"{"idl": {"fns": ["f", "g"]}, "dest_crate": {"path": "/out", "crate_name": null}}"#);
    let (idl, dest) = decode_payload(&input).expect("payload should decode");
    let cx = GenerateCx::new(idl, dest);
    let expected_idl = Json::Obj(vec![(
        "fns".to_string(),
        Json::Arr(vec![Json::Str("f".to_string()), Json::Str("g".to_string())]),
    )]);
    assert_eq!(*cx.idl(), expected_idl);
    assert_eq!(cx.dest_crate().path, "/out");
    assert_eq!(cx.dest_crate().crate_name, None);
}
