use flow::detector::{
    analyze_transaction, AuthorityKind, ParsedInstruction, PatternId, Severity, TokenOp, Warning,
};
use flow::ids::AccountId;
use flow::rpc::get_default_rpc_url;

fn acct() -> AccountId {
    AccountId::from_words(11, 22, 33, 44)
}

fn signer() -> AccountId {
    AccountId::from_words(5, 0, 0, 0)
}

fn set_authority(
    kind: AuthorityKind,
    text: Option<&str>,
    parsed: Option<AccountId>,
) -> ParsedInstruction {
    ParsedInstruction {
        program: "spl-token".to_string(),
        op: TokenOp::SetAuthority {
            authority_kind: kind,
            new_authority_text: text.map(|t| t.to_string()),
            new_authority_key: parsed,
            account: Some(acct()),
        },
    }
}

#[test]
fn test_warning_format() {
    let warning = Warning {
        pattern_id: PatternId::P101MintKill,
        severity: Severity::Critical,
        message: "Test warning message".to_string(),
        affected_account: None,
    };

    let formatted = warning.format_terminal();
    assert!(formatted.contains("CRITICAL"));
    assert!(formatted.contains("Test warning message"));
}

#[test]
fn format_terminal_renders_account_in_base58() {
    let warning = Warning {
        pattern_id: PatternId::P104DangerousClose,
        severity: Severity::Warning,
        message: "closing".to_string(),
        affected_account: Some(AccountId::zero()),
    };
    let formatted = warning.format_terminal();
    // 32 zero bytes render as 32 ones in base58; this fails if the renderer
    // handed anything else back.
    assert!(formatted.contains(&"1".repeat(32)));
    assert!(formatted.contains("Affected Account"));
    assert!(formatted.contains("Dangerous Account Close (P-104)"));
    assert!(formatted.contains("WARNING"));
}

#[test]
fn mint_kill_draws_critical_warning() {
    let ixs = vec![set_authority(AuthorityKind::MintTokens, None, None)];
    let warnings = analyze_transaction(&ixs, &vec![]);
    assert_eq!(warnings.len(), 1);
    assert_eq!(warnings[0].pattern_id, PatternId::P101MintKill);
    assert_eq!(warnings[0].severity, Severity::Critical);
    assert_eq!(
        warnings[0].message,
        "You are permanently disabling Mint Authority. This token can NEVER be minted again."
    );
    assert_eq!(warnings[0].affected_account, Some(acct()));
}

#[test]
fn freeze_kill_draws_warning() {
    let ixs = vec![set_authority(AuthorityKind::FreezeAccount, None, None)];
    let warnings = analyze_transaction(&ixs, &vec![]);
    assert_eq!(warnings.len(), 1);
    assert_eq!(warnings[0].pattern_id, PatternId::P102FreezeKill);
    assert_eq!(warnings[0].severity, Severity::Warning);
    assert_eq!(
        warnings[0].message,
        "You are losing the ability to freeze accounts. Risk of regulatory non-compliance."
    );
}

#[test]
fn new_authority_outside_signers_is_mismatch() {
    let ixs = vec![set_authority(
        AuthorityKind::MintTokens,
        Some("SomeBase58Key"),
        Some(AccountId::from_words(9, 9, 9, 9)),
    )];
    let warnings = analyze_transaction(&ixs, &vec![signer()]);
    assert_eq!(warnings.len(), 1);
    assert_eq!(warnings[0].pattern_id, PatternId::P103SignerMismatch);
    assert_eq!(warnings[0].severity, Severity::Critical);
    assert_eq!(
        warnings[0].message,
        "New mint authority (SomeBase58Key) is a wallet you don't currently sign for. Potential Typo/Lockout risk."
    );
}

#[test]
fn new_authority_among_signers_is_silent() {
    let ixs = vec![set_authority(
        AuthorityKind::FreezeAccount,
        Some("SomeBase58Key"),
        Some(signer()),
    )];
    let warnings = analyze_transaction(&ixs, &vec![signer()]);
    assert!(warnings.is_empty());
}

#[test]
fn unparsed_authority_is_silent() {
    let ixs = vec![set_authority(AuthorityKind::MintTokens, Some("not-a-key"), None)];
    let warnings = analyze_transaction(&ixs, &vec![]);
    assert!(warnings.is_empty());
}

#[test]
fn other_authority_kind_mismatch_is_flagged() {
    let ixs = vec![set_authority(
        AuthorityKind::AccountOwner,
        Some("OwnerKey"),
        Some(AccountId::from_words(8, 8, 8, 8)),
    )];
    let warnings = analyze_transaction(&ixs, &vec![signer()]);
    assert_eq!(warnings.len(), 1);
    assert_eq!(warnings[0].pattern_id, PatternId::P103SignerMismatch);
    assert_eq!(
        warnings[0].message,
        "New authority (OwnerKey) is a wallet you don't currently sign for. Potential Typo/Lockout risk."
    );
}

#[test]
fn close_account_always_draws_caution() {
    let ixs = vec![ParsedInstruction {
        program: "spl-token-2022".to_string(),
        op: TokenOp::CloseAccount { account: Some(acct()) },
    }];
    let warnings = analyze_transaction(&ixs, &vec![]);
    assert_eq!(warnings.len(), 1);
    assert_eq!(warnings[0].pattern_id, PatternId::P104DangerousClose);
    assert_eq!(
        warnings[0].message,
        "Closing account. Ensure the account has no remaining balance or tokens to avoid loss."
    );
}

#[test]
fn non_token_programs_are_ignored() {
    let ixs = vec![ParsedInstruction {
        program: "system".to_string(),
        op: TokenOp::CloseAccount { account: Some(acct()) },
    }];
    let warnings = analyze_transaction(&ixs, &vec![]);
    assert!(warnings.is_empty());
}

#[test]
fn warnings_come_in_instruction_order() {
    let ixs = vec![
        set_authority(AuthorityKind::MintTokens, None, None),
        ParsedInstruction { program: "vote".to_string(), op: TokenOp::Other },
        ParsedInstruction {
            program: "spl-token".to_string(),
            op: TokenOp::CloseAccount { account: None },
        },
    ];
    let warnings = analyze_transaction(&ixs, &vec![]);
    assert_eq!(warnings.len(), 2);
    assert_eq!(warnings[0].pattern_id, PatternId::P101MintKill);
    assert_eq!(warnings[1].pattern_id, PatternId::P104DangerousClose);
}

#[test]
fn default_rpc_urls_by_environment() {
    assert_eq!(get_default_rpc_url("mainnet"), "https://api.mainnet-beta.solana.com");
    assert_eq!(get_default_rpc_url("MAINNET"), "https://api.mainnet-beta.solana.com");
    assert_eq!(get_default_rpc_url("mainnet-beta"), "https://api.mainnet-beta.solana.com");
    assert_eq!(get_default_rpc_url("devnet"), "https://api.devnet.solana.com");
    assert_eq!(get_default_rpc_url("TestNet"), "https://api.testnet.solana.com");
    assert_eq!(get_default_rpc_url("localhost"), "http://localhost:8899");
    assert_eq!(get_default_rpc_url("local"), "http://localhost:8899");
    assert_eq!(get_default_rpc_url("something-else"), "https://api.mainnet-beta.solana.com");
}
