use router_core::secret::{Secret, REDACTION_MARKER};

#[test]
fn masked_rendering_never_contains_the_wrapped_value() {
    let card_number = "4111111111111111";
    let secret = Secret::new(card_number.to_string());
    let rendered = secret.masked();
    assert!(!rendered.contains(card_number));
    assert_eq!(rendered, REDACTION_MARKER);
}

#[test]
fn masked_rendering_is_the_same_for_every_value() {
    let a = Secret::new("cvc 123".to_string());
    let b = Secret::new("a completely different secret".to_string());
    assert_eq!(a.masked(), b.masked());
}

#[test]
fn expose_is_the_only_way_back_to_the_value() {
    let secret = Secret::new("sk_live_key".to_string());
    assert_eq!(secret.expose().as_str(), "sk_live_key");
    assert_eq!(secret.into_inner(), "sk_live_key");
}
