use near_cli::account::{check_account_id_text, is_64_len_hex, AccountId};

#[test]
fn accepts_well_formed_account_ids() {
    for id in ["alice", "bob.near", "aa", "ok-name_0.sub.near", "volodymyr.testnet"] {
        assert!(check_account_id_text(id), "{}", id);
        assert_eq!(AccountId::parse(id).unwrap().as_text(), id);
    }
}

#[test]
fn rejects_malformed_account_ids() {
    for id in [
        "", "a", "Alice", "alice!", ".alice", "alice.", "al..ice", "al._ice", "-alice", "alice-",
        "has space",
        "aaaaaaaaaaaaaaaaaaaaaaaaaaaaaaaaaaaaaaaaaaaaaaaaaaaaaaaaaaaaaaaaa",
    ] {
        assert!(!check_account_id_text(id), "{}", id);
        assert!(AccountId::parse(id).is_none(), "{}", id);
    }
}

#[test]
fn account_id_rule_matches_the_outside_parser() {
    // the trusted encoders assume the syntactic rule coincides with the
    // account-id type the transaction is built from
    for id in ["alice", "bob.near", "aa", "ok-name_0.sub.near", "a_b-c.d0"] {
        assert!(id.parse::<near_primitives::types::AccountId>().is_ok(), "{}", id);
    }
    for id in ["", "a", "Alice", ".alice", "al..ice", "-a-", "has space"] {
        assert!(id.parse::<near_primitives::types::AccountId>().is_err(), "{}", id);
    }
}

#[test]
fn recognizes_implicit_account_form() {
    let hex = "ab12cd34ef56ab12cd34ef56ab12cd34ef56ab12cd34ef56ab12cd34ef56ab12";
    assert!(is_64_len_hex(hex));
    assert!(AccountId::parse(hex).unwrap().is_implicit());
    assert!(!is_64_len_hex("ab12"));
    assert!(!is_64_len_hex(&hex.to_uppercase()));
    let with_g = "gb12cd34ef56ab12cd34ef56ab12cd34ef56ab12cd34ef56ab12cd34ef56ab12";
    assert!(!is_64_len_hex(with_g));
}

#[test]
fn same_as_compares_by_text() {
    let a = AccountId::parse("alice").unwrap();
    let b = AccountId::parse("alice").unwrap();
    let c = AccountId::parse("bob").unwrap();
    assert!(a.same_as(&b));
    assert!(!a.same_as(&c));
}
