//! Detection of dangerous token-program operations in a parsed transaction,
//! and terminal formatting of the warnings.
//!
//! The caller parses a transaction into plain values — the token-program
//! instructions and the set of signing accounts — and the analysis here is
//! pure. Terminal styling and base58 rendering go through the small trusted
//! edges at the bottom of this file.

use vstd::prelude::*;
use crate::ids::AccountId;
use colored::Colorize;

verus! {

/// Warning severity levels.
#[derive(Clone, Copy, PartialEq, Eq, Structural, Debug)]
pub enum Severity {
    Critical,
    Warning,
    Alert,
}

/// Identifiers of the detection patterns.
#[derive(Clone, Copy, PartialEq, Eq, Structural, Debug)]
pub enum PatternId {
    P101MintKill,
    P102FreezeKill,
    P103SignerMismatch,
    P104DangerousClose,
}

/// A warning detected in a transaction.
#[derive(Clone, PartialEq, Debug)]
pub struct Warning {
    pub pattern_id: PatternId,
    pub severity: Severity,
    pub message: String,
    pub affected_account: Option<AccountId>,
}

/// The authority kind a set-authority instruction changes.
#[derive(Clone, Copy, PartialEq, Eq, Structural, Debug)]
pub enum AuthorityKind {
    MintTokens,
    FreezeAccount,
    AccountOwner,
    CloseAccount,
    Other,
}

/// One instruction of a transaction, reduced to what the detector reads.
#[derive(Clone, PartialEq, Debug)]
pub enum TokenOp {
    SetAuthority {
        authority_kind: AuthorityKind,
        /// The new authority as the transaction spells it, absent when the
        /// authority is being removed.
        new_authority_text: Option<String>,
        /// The same authority as a key, where the text parses as one.
        new_authority_key: Option<AccountId>,
        account: Option<AccountId>,
    },
    CloseAccount { account: Option<AccountId> },
    Other,
}

/// An instruction together with the program that interprets it.
#[derive(Clone, PartialEq, Debug)]
pub struct ParsedInstruction {
    pub program: String,
    pub op: TokenOp,
}

/// Mathematical image of a warning: the message as a character sequence.
pub struct WarningModel {
    pub pattern_id: PatternId,
    pub severity: Severity,
    pub message: Seq<char>,
    pub affected_account: Option<AccountId>,
}

/// Mathematical image of an instruction.
pub enum TokenOpModel {
    SetAuthority {
        authority_kind: AuthorityKind,
        new_authority_text: Option<Seq<char>>,
        new_authority_key: Option<AccountId>,
        account: Option<AccountId>,
    },
    CloseAccount { account: Option<AccountId> },
    Other,
}

pub struct InstructionModel {
    pub program: Seq<char>,
    pub op: TokenOpModel,
}

impl DeepView for Warning {
    type V = WarningModel;

    open spec fn deep_view(&self) -> WarningModel {
        WarningModel {
            pattern_id: self.pattern_id,
            severity: self.severity,
            message: self.message@,
            affected_account: self.affected_account,
        }
    }
}

impl DeepView for TokenOp {
    type V = TokenOpModel;

    open spec fn deep_view(&self) -> TokenOpModel {
        match self {
            TokenOp::SetAuthority { authority_kind, new_authority_text, new_authority_key, account } => TokenOpModel::SetAuthority {
                authority_kind: *authority_kind,
                new_authority_text: new_authority_text.deep_view(),
                new_authority_key: *new_authority_key,
                account: *account,
            },
            TokenOp::CloseAccount { account } => TokenOpModel::CloseAccount { account: *account },
            TokenOp::Other => TokenOpModel::Other,
        }
    }
}

impl DeepView for ParsedInstruction {
    type V = InstructionModel;

    open spec fn deep_view(&self) -> InstructionModel {
        InstructionModel { program: self.program@, op: self.op.deep_view() }
    }
}

pub open spec fn mint_kill_model(account: Option<AccountId>) -> WarningModel {
    WarningModel {
        pattern_id: PatternId::P101MintKill,
        severity: Severity::Critical,
        message: "You are permanently disabling Mint Authority. This token can NEVER be minted again."@,
        affected_account: account,
    }
}

pub open spec fn freeze_kill_model(account: Option<AccountId>) -> WarningModel {
    WarningModel {
        pattern_id: PatternId::P102FreezeKill,
        severity: Severity::Warning,
        message: "You are losing the ability to freeze accounts. Risk of regulatory non-compliance."@,
        affected_account: account,
    }
}

pub open spec fn mismatch_model(
    prefix: Seq<char>,
    text: Seq<char>,
    account: Option<AccountId>,
) -> WarningModel {
    WarningModel {
        pattern_id: PatternId::P103SignerMismatch,
        severity: Severity::Critical,
        message: prefix + text
            + ") is a wallet you don't currently sign for. Potential Typo/Lockout risk."@,
        affected_account: account,
    }
}

pub open spec fn close_model(account: Option<AccountId>) -> WarningModel {
    WarningModel {
        pattern_id: PatternId::P104DangerousClose,
        severity: Severity::Warning,
        message: "Closing account. Ensure the account has no remaining balance or tokens to avoid loss."@,
        affected_account: account,
    }
}

/// The signer-mismatch warning a new authority draws: one warning when the
/// text parses as a key that no transaction signer matches, none otherwise.
pub open spec fn mismatch_warnings(
    prefix: Seq<char>,
    text: Seq<char>,
    key: Option<AccountId>,
    account: Option<AccountId>,
    signers: Seq<AccountId>,
) -> Seq<WarningModel> {
    match key {
        Some(k) => if !signers.contains(k) {
            seq![mismatch_model(prefix, text, account)]
        } else {
            Seq::empty()
        },
        None => Seq::empty(),
    }
}

/// The warnings a set-authority instruction draws: removing the mint or
/// freeze authority is a kill pattern, and handing any authority to a key
/// outside the transaction's signers is a mismatch pattern.
pub open spec fn set_authority_warnings(
    kind: AuthorityKind,
    text: Option<Seq<char>>,
    key: Option<AccountId>,
    account: Option<AccountId>,
    signers: Seq<AccountId>,
) -> Seq<WarningModel> {
    match kind {
        AuthorityKind::MintTokens => match text {
            None => seq![mint_kill_model(account)],
            Some(t) => mismatch_warnings("New mint authority ("@, t, key, account, signers),
        },
        AuthorityKind::FreezeAccount => match text {
            None => seq![freeze_kill_model(account)],
            Some(t) => mismatch_warnings("New freeze authority ("@, t, key, account, signers),
        },
        AuthorityKind::AccountOwner | AuthorityKind::CloseAccount => match text {
            None => Seq::empty(),
            Some(t) => mismatch_warnings("New authority ("@, t, key, account, signers),
        },
        AuthorityKind::Other => Seq::empty(),
    }
}

/// The warnings one instruction draws: only the token programs are
/// analyzed; a set-authority instruction is held against the patterns
/// above, and every close-account instruction draws a caution.
pub open spec fn instruction_warnings(
    ix: InstructionModel,
    signers: Seq<AccountId>,
) -> Seq<WarningModel> {
    if ix.program == "spl-token"@ || ix.program == "spl-token-2022"@ {
        match ix.op {
            TokenOpModel::SetAuthority { authority_kind, new_authority_text, new_authority_key, account } => set_authority_warnings(
                authority_kind,
                new_authority_text,
                new_authority_key,
                account,
                signers,
            ),
            TokenOpModel::CloseAccount { account } => seq![close_model(account)],
            TokenOpModel::Other => Seq::empty(),
        }
    } else {
        Seq::empty()
    }
}

/// The warnings a whole transaction draws, instruction by instruction, in
/// order.
pub open spec fn transaction_warnings(
    ixs: Seq<InstructionModel>,
    signers: Seq<AccountId>,
) -> Seq<WarningModel>
    decreases ixs.len(),
{
    if ixs.len() == 0 {
        Seq::empty()
    } else {
        transaction_warnings(ixs.drop_last(), signers) + instruction_warnings(ixs.last(), signers)
    }
}

/// Whether a signer set holds a key.
fn signers_contain(signers: &Vec<AccountId>, key: &AccountId) -> (b: bool)
    ensures
        b == signers@.contains(*key),
{
    let mut i: usize = 0;
    while i < signers.len()
        invariant
            i <= signers@.len(),
            forall|j: int| 0 <= j < i ==> signers@[j] != *key,
        decreases signers@.len() - i,
    {
        if signers[i] == *key {
            return true;
        }
        i = i + 1;
    }
    false
}

/// Exact equality of two strings.
fn str_eq(a: &str, b: &str) -> (r: bool)
    ensures
        r == (a@ == b@),
{
    let a_len = a.unicode_len();
    let b_len = b.unicode_len();
    if a_len != b_len {
        return false;
    }
    let mut i: usize = 0;
    while i < a_len
        invariant
            a_len == a@.len(),
            b_len == b@.len(),
            a_len == b_len,
            i <= a_len,
            forall|j: int| 0 <= j < i ==> a@[j] == b@[j],
        decreases a_len - i,
    {
        if a.get_char(i) != b.get_char(i) {
            return false;
        }
        i = i + 1;
    }
    proof {
        assert(a@ =~= b@);
    }
    true
}

/// Build the signer-mismatch message around the authority text.
fn mismatch_message(prefix: &str, text: &String) -> (m: String)
    ensures
        m@ == prefix@ + text@
            + ") is a wallet you don't currently sign for. Potential Typo/Lockout risk."@,
{
    let mut m = String::from_str(prefix);
    m.append(text.as_str());
    m.append(") is a wallet you don't currently sign for. Potential Typo/Lockout risk.");
    m
}

/// Analyze one set-authority instruction against the mint-kill,
/// freeze-kill and signer-mismatch patterns.
fn analyze_set_authority(
    kind: AuthorityKind,
    new_authority_text: &Option<String>,
    new_authority_key: &Option<AccountId>,
    account: &Option<AccountId>,
    signers: &Vec<AccountId>,
) -> (r: Vec<Warning>)
    ensures
        r.deep_view() == set_authority_warnings(
            kind,
            new_authority_text.deep_view(),
            *new_authority_key,
            *account,
            signers@,
        ),
{
    let mut warnings: Vec<Warning> = Vec::new();
    match kind {
        AuthorityKind::MintTokens => {
            match new_authority_text {
                None => {
                    warnings.push(
                        Warning {
                            pattern_id: PatternId::P101MintKill,
                            severity: Severity::Critical,
                            message: String::from_str(
                                "You are permanently disabling Mint Authority. This token can NEVER be minted again.",
                            ),
                            affected_account: *account,
                        },
                    );
                },
                Some(text) => {
                    match new_authority_key {
                        Some(key) => {
                            if !signers_contain(signers, key) {
                                warnings.push(
                                    Warning {
                                        pattern_id: PatternId::P103SignerMismatch,
                                        severity: Severity::Critical,
                                        message: mismatch_message("New mint authority (", text),
                                        affected_account: *account,
                                    },
                                );
                            }
                        },
                        None => {},
                    }
                },
            }
        },
        AuthorityKind::FreezeAccount => {
            match new_authority_text {
                None => {
                    warnings.push(
                        Warning {
                            pattern_id: PatternId::P102FreezeKill,
                            severity: Severity::Warning,
                            message: String::from_str(
                                "You are losing the ability to freeze accounts. Risk of regulatory non-compliance.",
                            ),
                            affected_account: *account,
                        },
                    );
                },
                Some(text) => {
                    match new_authority_key {
                        Some(key) => {
                            if !signers_contain(signers, key) {
                                warnings.push(
                                    Warning {
                                        pattern_id: PatternId::P103SignerMismatch,
                                        severity: Severity::Critical,
                                        message: mismatch_message("New freeze authority (", text),
                                        affected_account: *account,
                                    },
                                );
                            }
                        },
                        None => {},
                    }
                },
            }
        },
        AuthorityKind::AccountOwner | AuthorityKind::CloseAccount => {
            match new_authority_text {
                None => {},
                Some(text) => {
                    match new_authority_key {
                        Some(key) => {
                            if !signers_contain(signers, key) {
                                warnings.push(
                                    Warning {
                                        pattern_id: PatternId::P103SignerMismatch,
                                        severity: Severity::Critical,
                                        message: mismatch_message("New authority (", text),
                                        affected_account: *account,
                                    },
                                );
                            }
                        },
                        None => {},
                    }
                },
            }
        },
        AuthorityKind::Other => {},
    }
    proof {
        assert(warnings.deep_view() =~= set_authority_warnings(
            kind,
            new_authority_text.deep_view(),
            *new_authority_key,
            *account,
            signers@,
        ));
    }
    warnings
}

/// Every close-account instruction draws a caution: the detector cannot
/// see remaining balances, so closing is flagged as potentially dangerous.
fn analyze_close_account(account: &Option<AccountId>) -> (r: Vec<Warning>)
    ensures
        r.deep_view() == seq![close_model(*account)],
{
    let mut warnings: Vec<Warning> = Vec::new();
    warnings.push(
        Warning {
            pattern_id: PatternId::P104DangerousClose,
            severity: Severity::Warning,
            message: String::from_str(
                "Closing account. Ensure the account has no remaining balance or tokens to avoid loss.",
            ),
            affected_account: *account,
        },
    );
    proof {
        assert(warnings.deep_view() =~= seq![close_model(*account)]);
    }
    warnings
}

/// Analyze a transaction, given as its parsed instructions and the set of
/// accounts that sign it, and return every warning the detection patterns
/// draw, in instruction order.
pub fn analyze_transaction(
    instructions: &Vec<ParsedInstruction>,
    signers: &Vec<AccountId>,
) -> (r: Vec<Warning>)
    ensures
        r.deep_view() == transaction_warnings(instructions.deep_view(), signers@),
{
    let ghost ixs = instructions.deep_view();
    let mut warnings: Vec<Warning> = Vec::new();
    let mut i: usize = 0;
    while i < instructions.len()
        invariant
            ixs == instructions.deep_view(),
            i <= instructions@.len(),
            ixs.len() == instructions@.len(),
            warnings.deep_view() == transaction_warnings(ixs.take(i as int), signers@),
        decreases instructions@.len() - i,
    {
        let ix = &instructions[i];
        proof {
            assert(ixs[i as int] == instructions@[i as int].deep_view());
            assert(ixs.take(i + 1 as int).drop_last() =~= ixs.take(i as int));
            assert(ixs.take(i + 1 as int).last() == ixs[i as int]);
        }
        let token_program = str_eq(ix.program.as_str(), "spl-token") || str_eq(
            ix.program.as_str(),
            "spl-token-2022",
        );
        let ghost pre = warnings.deep_view();
        if token_program {
            match &ix.op {
                TokenOp::SetAuthority { authority_kind, new_authority_text, new_authority_key, account } => {
                    let mut ws = analyze_set_authority(
                        *authority_kind,
                        new_authority_text,
                        new_authority_key,
                        account,
                        signers,
                    );
                    warnings.append(&mut ws);
                },
                TokenOp::CloseAccount { account } => {
                    let mut ws = analyze_close_account(account);
                    warnings.append(&mut ws);
                },
                TokenOp::Other => {},
            }
        }
        proof {
            assert(warnings.deep_view() =~= pre + instruction_warnings(ixs[i as int], signers@));
            assert(warnings.deep_view() == transaction_warnings(ixs.take(i + 1 as int), signers@));
        }
        i = i + 1;
    }
    proof {
        assert(ixs.take(ixs.len() as int) =~= ixs);
    }
    warnings
}

/// A sequence holds a contiguous occurrence of another.
#[verifier::opaque]
pub open spec fn contains_sub(hay: Seq<char>, needle: Seq<char>) -> bool {
    exists|k: int|
        0 <= k && k + needle.len() <= hay.len() && (#[trigger] hay.subrange(k, k + needle.len()))
            == needle
}

proof fn lemma_contains_left(a: Seq<char>, b: Seq<char>, n: Seq<char>)
    requires
        contains_sub(a, n),
    ensures
        contains_sub(a + b, n),
{
    reveal(contains_sub);
    let k = choose|k: int|
        0 <= k && k + n.len() <= a.len() && (#[trigger] a.subrange(k, k + n.len())) == n;
    assert((a + b).subrange(k, k + n.len()) =~= n);
}

proof fn lemma_contains_right(a: Seq<char>, b: Seq<char>, n: Seq<char>)
    requires
        contains_sub(b, n),
    ensures
        contains_sub(a + b, n),
{
    reveal(contains_sub);
    let k = choose|k: int|
        0 <= k && k + n.len() <= b.len() && (#[trigger] b.subrange(k, k + n.len())) == n;
    assert((a + b).subrange(a.len() + k, a.len() + k + n.len()) =~= n);
}

proof fn lemma_contains_self(a: Seq<char>)
    ensures
        contains_sub(a, a),
{
    reveal(contains_sub);
    assert(a.subrange(0, 0 + a.len() as int) =~= a);
    assert(0 <= 0 && 0 + a.len() <= a.len() && a.subrange(0, 0 + a.len() as int) == a);
}

/// The escape character never occurs in a sequence.
pub open spec fn no_escape(s: Seq<char>) -> bool {
    forall|i: int| 0 <= i < s.len() ==> (#[trigger] s[i]) != '\u{1b}'
}

/// Whether a string is free of the terminal escape character.
fn has_no_escape(s: &str) -> (b: bool)
    ensures
        b == no_escape(s@),
{
    let len = s.unicode_len();
    let mut i: usize = 0;
    while i < len
        invariant
            len == s@.len(),
            i <= len,
            forall|j: int| 0 <= j < i ==> (#[trigger] s@[j]) != '\u{1b}',
        decreases len - i,
    {
        if s.get_char(i) == '\u{1b}' {
            return false;
        }
        i = i + 1;
    }
    true
}

pub open spec fn severity_label(s: Severity) -> Seq<char> {
    match s {
        Severity::Critical => "🚨 CRITICAL"@,
        Severity::Warning => "⚠️  WARNING"@,
        Severity::Alert => "⚠️  ALERT"@,
    }
}

pub open spec fn pattern_label(p: PatternId) -> Seq<char> {
    match p {
        PatternId::P101MintKill => "Mint Authority Kill (P-101)"@,
        PatternId::P102FreezeKill => "Freeze Authority Kill (P-102)"@,
        PatternId::P103SignerMismatch => "Signer Mismatch (P-103)"@,
        PatternId::P104DangerousClose => "Dangerous Account Close (P-104)"@,
    }
}

/// A bound on the characters a base58 rendering can contain: every
/// character of the Bitcoin base58 alphabet lies in these ASCII
/// alphanumeric ranges. (The ranges also admit a few characters, such as
/// `0` and `O`, that the alphabet itself leaves out; the bound is used
/// only to keep styled output free of control characters.)
pub open spec fn is_base58_char(c: char) -> bool {
    ('1' <= c && c <= '9') || ('A' <= c && c <= 'Z') || ('a' <= c && c <= 'z')
}

/// The base58 rendering of a 32-byte identity given as four words; it
/// depends on the bytes alone.
pub uninterp spec fn base58_of(w0: u64, w1: u64, w2: u64, w3: u64) -> Seq<char>;

impl Warning {
    /// Format the warning for terminal output: the styled severity label,
    /// the styled pattern name, the message, and the affected account in
    /// base58 when one is known — each of which stays legible in the
    /// output whatever the terminal's color support.
    #[verifier::rlimit(100)]
    pub fn format_terminal(&self) -> (r: String)
        ensures
            contains_sub(r@, severity_label(self.severity)),
            contains_sub(r@, pattern_label(self.pattern_id)),
            contains_sub(r@, self.message@),
            self.affected_account matches Some(a) ==> contains_sub(
                r@,
                base58_of(a.w0, a.w1, a.w2, a.w3),
            ),
    {
        let label: &str = match self.severity {
            Severity::Critical => "🚨 CRITICAL",
            Severity::Warning => "⚠️  WARNING",
            Severity::Alert => "⚠️  ALERT",
        };
        let mut output: String = if has_no_escape(label) {
            match self.severity {
                Severity::Critical => style_critical(label),
                Severity::Warning => style_warning(label),
                Severity::Alert => style_warning(label),
            }
        } else {
            String::from_str(label)
        };
        proof {
            lemma_contains_self(label@);
            assert(contains_sub(output@, severity_label(self.severity)));
        }

        let pattern_name: &str = match self.pattern_id {
            PatternId::P101MintKill => "Mint Authority Kill (P-101)",
            PatternId::P102FreezeKill => "Freeze Authority Kill (P-102)",
            PatternId::P103SignerMismatch => "Signer Mismatch (P-103)",
            PatternId::P104DangerousClose => "Dangerous Account Close (P-104)",
        };
        let styled_pattern: String = if has_no_escape(pattern_name) {
            style_bold(pattern_name)
        } else {
            String::from_str(pattern_name)
        };
        proof {
            lemma_contains_self(pattern_name@);
            assert(contains_sub(styled_pattern@, pattern_label(self.pattern_id)));
        }

        let ghost out0 = output@;
        output.append(": ");
        proof {
            lemma_contains_left(out0, ": "@, severity_label(self.severity));
        }
        let ghost out1 = output@;
        output.append(styled_pattern.as_str());
        proof {
            lemma_contains_left(out1, styled_pattern@, severity_label(self.severity));
            lemma_contains_right(out1, styled_pattern@, pattern_label(self.pattern_id));
        }
        let ghost out2 = output@;
        output.append("\n  ");
        proof {
            lemma_contains_left(out2, "\n  "@, severity_label(self.severity));
            lemma_contains_left(out2, "\n  "@, pattern_label(self.pattern_id));
        }
        let ghost out3 = output@;
        output.append(self.message.as_str());
        proof {
            lemma_contains_left(out3, self.message@, severity_label(self.severity));
            lemma_contains_left(out3, self.message@, pattern_label(self.pattern_id));
            lemma_contains_self(self.message@);
            lemma_contains_right(out3, self.message@, self.message@);
        }
        let ghost out4 = output@;
        output.append("\n");
        proof {
            lemma_contains_left(out4, "\n"@, severity_label(self.severity));
            lemma_contains_left(out4, "\n"@, pattern_label(self.pattern_id));
            lemma_contains_left(out4, "\n"@, self.message@);
        }

        match &self.affected_account {
            Some(account) => {
                let rendered = account_base58(account);
                proof {
                    assert forall|i: int| 0 <= i < rendered@.len() implies (#[trigger] rendered@[i])
                        != '\u{1b}' by {
                        assert(is_base58_char(rendered@[i]));
                    }
                }
                let styled_account = style_cyan(rendered.as_str());
                let ghost out5 = output@;
                output.append("  Affected Account: ");
                let ghost out6 = output@;
                output.append(styled_account.as_str());
                let ghost out7 = output@;
                output.append("\n");
                proof {
                    let ghost a = *account;
                    lemma_contains_left(out5, "  Affected Account: "@, severity_label(self.severity));
                    lemma_contains_left(out5, "  Affected Account: "@, pattern_label(self.pattern_id));
                    lemma_contains_left(out5, "  Affected Account: "@, self.message@);
                    lemma_contains_right(out6, styled_account@, base58_of(a.w0, a.w1, a.w2, a.w3));
                    lemma_contains_left(out6, styled_account@, severity_label(self.severity));
                    lemma_contains_left(out6, styled_account@, pattern_label(self.pattern_id));
                    lemma_contains_left(out6, styled_account@, self.message@);
                    lemma_contains_left(out7, "\n"@, severity_label(self.severity));
                    lemma_contains_left(out7, "\n"@, pattern_label(self.pattern_id));
                    lemma_contains_left(out7, "\n"@, self.message@);
                    lemma_contains_left(out7, "\n"@, base58_of(a.w0, a.w1, a.w2, a.w3));
                }
            },
            None => {},
        }

        output
    }
}

/// Relies on colored's `Colorize::red` and `Colorize::bold`: styling wraps
/// the text in terminal escape sequences, or leaves it plain when coloring
/// is off, so escape-free text stays a contiguous substring of the result.
#[verifier::external_body]
fn style_critical(s: &str) -> (r: String)
    requires
        no_escape(s@),
    ensures
        contains_sub(r@, s@),
{
    s.red().bold().to_string()
}

/// Relies on colored's `Colorize::yellow` and `Colorize::bold`: as with
/// `style_critical`, escape-free text stays a contiguous substring.
#[verifier::external_body]
fn style_warning(s: &str) -> (r: String)
    requires
        no_escape(s@),
    ensures
        contains_sub(r@, s@),
{
    s.yellow().bold().to_string()
}

/// Relies on colored's `Colorize::bold`: as with `style_critical`,
/// escape-free text stays a contiguous substring.
#[verifier::external_body]
fn style_bold(s: &str) -> (r: String)
    requires
        no_escape(s@),
    ensures
        contains_sub(r@, s@),
{
    s.bold().to_string()
}

/// Relies on colored's `Colorize::cyan`: as with `style_critical`,
/// escape-free text stays a contiguous substring.
#[verifier::external_body]
fn style_cyan(s: &str) -> (r: String)
    requires
        no_escape(s@),
    ensures
        contains_sub(r@, s@),
{
    s.cyan().to_string()
}

/// Relies on bs58's `encode` with its default (Bitcoin) alphabet: the
/// rendering is a pure function of the 32 bytes, and every character of it
/// comes from the alphabet, which is ASCII alphanumeric.
#[verifier::external_body]
fn account_base58(id: &AccountId) -> (r: String)
    ensures
        r@ == base58_of(id.w0, id.w1, id.w2, id.w3),
        forall|i: int| 0 <= i < r@.len() ==> is_base58_char(#[trigger] r@[i]),
{
    let mut bytes = [0u8; 32];
    bytes[0..8].copy_from_slice(&id.w0.to_le_bytes());
    bytes[8..16].copy_from_slice(&id.w1.to_le_bytes());
    bytes[16..24].copy_from_slice(&id.w2.to_le_bytes());
    bytes[24..32].copy_from_slice(&id.w3.to_le_bytes());
    bs58::encode(&bytes).into_string()
}

} // verus!
