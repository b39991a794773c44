use etas_host::{SessionGeneration, SessionVersion};

#[test]
fn generation_identity_is_session_bound_and_canonical() {
    let generation = SessionGeneration::issue("one", &"a".repeat(32))
        .ok()
        .expect("issued generation");
    assert!(generation.belongs_to("one"));
    assert!(!generation.belongs_to("two"));
    assert!(
        SessionGeneration::parse(generation.as_token())
            .ok()
            .expect("parsed generation")
            == generation
    );
    assert!(SessionGeneration::parse(&generation.as_token().replace('a', "A")).is_err());
    assert!(SessionGeneration::parse("sg1:not-a-generation").is_err());
    let append = SessionVersion::issue("one", &"a".repeat(32), 0)
        .ok()
        .expect("issued version");
    assert!(SessionGeneration::parse(append.as_token()).is_err());
    assert!(SessionVersion::parse(generation.as_token()).is_err());
}
