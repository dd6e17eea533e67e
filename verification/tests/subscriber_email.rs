use rust_to_prod::domain::subscriber_email::is_address;
use rust_to_prod::domain::SubscriberEmail;

fn accepted(text: &str) -> bool {
    match SubscriberEmail::parse(text.to_string()) {
        Ok(email) => {
            assert_eq!(email.as_ref(), text);
            assert!(is_address(text));
            true
        }
        Err(error) => {
            assert_eq!(error.input, text);
            assert!(!is_address(text));
            false
        }
    }
}

#[test]
fn empty_string_is_rejected() {
    assert!(!accepted(""));
}

#[test]
fn email_missing_at_symbol_is_rejected() {
    assert!(!accepted("ursuladomain.com"));
}

#[test]
fn email_missing_subject_is_rejected() {
    assert!(!accepted("@domain.com"));
}

#[test]
fn email_missing_domain_is_rejected() {
    assert!(!accepted("ursula@"));
}

#[test]
fn email_without_a_dot_in_the_domain_is_rejected() {
    assert!(!accepted("ursula@localhost"));
    assert!(!accepted("first.last@domain"));
}

#[test]
fn email_with_two_at_symbols_is_rejected() {
    assert!(!accepted("a@b@domain.com"));
    assert!(!accepted("a@@domain.com"));
}

#[test]
fn email_with_whitespace_is_rejected() {
    assert!(!accepted("ursula @domain.com"));
    assert!(!accepted("ursula@domain .com"));
    assert!(!accepted(" ursula@domain.com"));
    assert!(!accepted("ursula@domain.com\n"));
    assert!(!accepted("ur\tsula@domain.com"));
}

#[test]
fn email_with_an_empty_label_is_rejected() {
    assert!(!accepted("ursula@.com"));
    assert!(!accepted("ursula@domain."));
    assert!(!accepted("ursula@domain..com"));
    assert!(!accepted("ursula@."));
}

#[test]
fn label_may_not_begin_or_end_with_a_hyphen() {
    assert!(!accepted("ursula@-domain.com"));
    assert!(!accepted("ursula@domain-.com"));
    assert!(!accepted("ursula@domain.-com"));
    assert!(!accepted("ursula@domain.com-"));
    assert!(accepted("ursula@do-main.com"));
    assert!(accepted("ursula@do--main.co-m"));
}

#[test]
fn label_may_hold_up_to_63_characters() {
    let longest = "a".repeat(63);
    let too_long = "a".repeat(64);
    assert!(accepted(&format!("ursula@{}.com", longest)));
    assert!(accepted(&format!("ursula@domain.{}", longest)));
    assert!(!accepted(&format!("ursula@{}.com", too_long)));
    assert!(!accepted(&format!("ursula@domain.{}", too_long)));
}

#[test]
fn characters_outside_the_grammar_are_rejected() {
    assert!(!accepted("urs\"ula@domain.com"));
    assert!(!accepted("urs(ula)@domain.com"));
    assert!(!accepted("ursula@dom_ain.com"));
    assert!(!accepted("ursula@dom!ain.com"));
    assert!(!accepted("ursula@[127.0.0.1]"));
    assert!(!accepted("ursula,le@domain.com"));
}

#[test]
fn characters_outside_ascii_are_rejected() {
    assert!(!accepted("ürsula@domain.com"));
    assert!(!accepted("ursula@dömain.com"));
    assert!(!accepted("ursula@domain.com\u{a0}"));
    assert!(!accepted("\u{1F600}@domain.com"));
}

#[test]
fn valid_emails_are_parsed_successfully() {
    assert!(accepted("ursula_le_guin@gmail.com"));
    assert!(accepted("test@example.com"));
    assert!(accepted("a@b.c"));
    assert!(accepted("first.last@sub.domain.example.org"));
    assert!(accepted("UPPER.lower.123@Example.COM"));
    assert!(accepted("!#$%&'*+-/=?^_`{|}~@example.com"));
    assert!(accepted(".leading.dot@example.com"));
    assert!(accepted("double..dot@example.com"));
    assert!(accepted("trailing.dot.@example.com"));
    assert!(accepted("digits@123.456"));
    assert!(accepted("x@1.2.3.4"));
}

#[test]
fn parsed_email_reads_as_the_text_it_was_made_from() {
    let email = SubscriberEmail::parse("Ursula@Domain.Com".to_string()).unwrap();
    assert_eq!(email.as_ref(), "Ursula@Domain.Com");
}

#[test]
fn rejected_text_is_echoed_in_the_error() {
    let error = SubscriberEmail::parse("not an email".to_string()).unwrap_err();
    assert_eq!(error.input, "not an email");
    assert_eq!(error.message(), "not an email is not a valid subscriber email.");
    let error = SubscriberEmail::parse(String::new()).unwrap_err();
    assert_eq!(error.input, "");
    assert_eq!(error.message(), " is not a valid subscriber email.");
}
