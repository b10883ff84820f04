use vstd::prelude::*;
use vstd::slice::slice_to_vec;
use vstd::string::*;

use crate::decimal::{
    all_ascii_digits, decimal_text, decimal_value, is_ascii_digit, lemma_decimal_text_round_trip,
    push_decimal,
};
use crate::error::FaceTimeIdsQuicError;
use crate::text::{debug_quoted, push_str, quoted_debug_text};

verus! {

/// Salt returned by Apple's `IDSIDAliasFixedSalt()` for the production
/// `unicastConnectorWithDataMode:` path.
///
/// This is connection identity material, not the TLS PSK used by the separate
/// blob-driven/test connector path.
pub const FACE_TIME_IDS_ALIAS_FIXED_SALT: [u8; 8] = [1, 2, 3, 4, 5, 6, 7, 8];

/// The bytes of the fixed alias salt.
pub open spec fn fixed_alias_salt() -> Seq<u8> {
    seq![1u8, 2u8, 3u8, 4u8, 5u8, 6u8, 7u8, 8u8]
}

/// The IDS account identifier of a participant in a group session:
/// `groupsession:<session>:ids:<participant in decimal>:L`.
pub open spec fn account_id_text(session_id: Seq<char>, participant_id: u64) -> Seq<char> {
    "groupsession:"@ + session_id + ":ids:"@ + decimal_text(participant_id as nat) + ":L"@
}

/// The account identifier determines both the session and the participant it
/// was built from.
pub proof fn lemma_account_id_determines_inputs(
    session_a: Seq<char>,
    participant_a: u64,
    session_b: Seq<char>,
    participant_b: u64,
)
    requires
        account_id_text(session_a, participant_a) == account_id_text(session_b, participant_b),
    ensures
        session_a == session_b,
        participant_a == participant_b,
{
    reveal_strlit("groupsession:");
    reveal_strlit(":ids:");
    reveal_strlit(":L");
    let da = decimal_text(participant_a as nat);
    let db = decimal_text(participant_b as nat);
    lemma_decimal_text_round_trip(participant_a as nat);
    lemma_decimal_text_round_trip(participant_b as nat);
    let ta = account_id_text(session_a, participant_a);
    let tb = account_id_text(session_b, participant_b);
    let n = ta.len() as int;
    assert(ta =~= "groupsession:"@ + session_a + ":ids:"@ + da + ":L"@);
    assert(tb =~= "groupsession:"@ + session_b + ":ids:"@ + db + ":L"@);
    assert(n == 13 + session_a.len() + 5 + da.len() + 2);
    assert(n == 13 + session_b.len() + 5 + db.len() + 2);
    // Just before the participant's digits stands the colon of ":ids:".
    assert(ta[n - 3 - da.len()] == ':');
    assert(tb[n - 3 - db.len()] == ':');
    if da.len() < db.len() {
        let i = db.len() - 1 - da.len();
        assert(tb[n - 3 - da.len()] == db[i]);
        assert(is_ascii_digit(db[i]));
        assert(false);
    }
    if db.len() < da.len() {
        let i = da.len() - 1 - db.len();
        assert(ta[n - 3 - db.len()] == da[i]);
        assert(is_ascii_digit(da[i]));
        assert(false);
    }
    assert(da =~= ta.subrange(n - 2 - da.len(), n - 2));
    assert(db =~= tb.subrange(n - 2 - db.len(), n - 2));
    assert(decimal_value(da) == decimal_value(db));
    assert(session_a =~= ta.subrange(13, n - 7 - da.len()));
    assert(session_b =~= tb.subrange(13, n - 7 - db.len()));
}

/// Builds the IDS account identifier that Apple pins for a participant.
pub fn face_time_ids_account_id(session_id: &str, participant_id: u64) -> (account: String)
    ensures
        account@ == account_id_text(session_id@, participant_id),
{
    let mut account = String::from_str("groupsession:");
    push_str(&mut account, session_id);
    push_str(&mut account, ":ids:");
    push_decimal(&mut account, participant_id);
    push_str(&mut account, ":L");
    account
}

/// TLS settings of the IDS channel.
#[derive(Clone, Copy, Debug, PartialEq, Eq)]
pub struct FaceTimeIdsQuicTlsConfiguration {
    pre_shared_key_identity: Option<&'static str>,
}

impl FaceTimeIdsQuicTlsConfiguration {
    /// The identity of the pre-shared key that TLS offers, if any.
    pub closed spec fn spec_pre_shared_key_identity(self) -> Option<&'static str> {
        self.pre_shared_key_identity
    }

    /// TLS without a pre-shared key.
    pub fn no_psk() -> (tls: Self)
        ensures
            tls.spec_pre_shared_key_identity() is None,
    {
        FaceTimeIdsQuicTlsConfiguration { pre_shared_key_identity: None }
    }

    /// The text that the TLS settings show of themselves.
    pub open spec fn spec_debug_text(self) -> Seq<char> {
        "FaceTimeIdsQuicTlsConfiguration { pre_shared_key_identity: "@ + match self.spec_pre_shared_key_identity() {
            None => "None"@,
            Some(identity) => "Some("@ + quoted_debug_text(identity@) + ")"@,
        } + " }"@
    }

    /// The text that the TLS settings show of themselves.
    pub fn debug_text(&self) -> (text: String)
        ensures
            text@ == self.spec_debug_text(),
    {
        let mut text = String::from_str("FaceTimeIdsQuicTlsConfiguration { pre_shared_key_identity: ");
        match self.pre_shared_key_identity {
            None => push_str(&mut text, "None"),
            Some(identity) => {
                push_str(&mut text, "Some(");
                let quoted = debug_quoted(identity);
                push_str(&mut text, quoted.as_str());
                push_str(&mut text, ")");
            },
        }
        push_str(&mut text, " }");
        text
    }

    /// The identity of the pre-shared key that TLS offers, if any.
    pub fn pre_shared_key_identity(self) -> (identity: Option<&'static str>)
        ensures
            identity == self.spec_pre_shared_key_identity(),
    {
        self.pre_shared_key_identity
    }
}

/// An IPv6 address, held as its 128 bits in network order.
#[derive(Clone, Copy, Debug, PartialEq, Eq)]
pub struct Ipv6Address {
    pub bits: u128,
}

impl Ipv6Address {
    /// The unspecified address `::`.
    pub fn unspecified() -> (ip: Self)
        ensures
            ip.bits == 0,
    {
        Ipv6Address { bits: 0 }
    }

    /// The address with the given 128 bits.
    pub fn from_bits(bits: u128) -> (ip: Self)
        ensures
            ip.bits == bits,
    {
        Ipv6Address { bits }
    }

    /// The 128 bits of the address.
    pub fn to_bits(&self) -> (bits: u128)
        ensures
            bits == self.bits,
    {
        self.bits
    }
}

/// An IPv6 socket address: address, port, flow information and scope.
#[derive(Clone, Copy, Debug, PartialEq, Eq)]
pub struct SocketAddressV6 {
    pub ip: Ipv6Address,
    pub port: u16,
    pub flowinfo: u32,
    pub scope_id: u32,
}

impl SocketAddressV6 {
    /// The socket address with the given parts.
    pub fn new(ip: Ipv6Address, port: u16, flowinfo: u32, scope_id: u32) -> (addr: Self)
        ensures
            addr == (SocketAddressV6 { ip, port, flowinfo, scope_id }),
    {
        SocketAddressV6 { ip, port, flowinfo, scope_id }
    }

    /// The address part.
    pub fn ip(&self) -> (ip: &Ipv6Address)
        ensures
            *ip == self.ip,
    {
        &self.ip
    }

    /// The port part.
    pub fn port(&self) -> (port: u16)
        ensures
            port == self.port,
    {
        self.port
    }

    /// The flow information part.
    pub fn flowinfo(&self) -> (flowinfo: u32)
        ensures
            flowinfo == self.flowinfo,
    {
        self.flowinfo
    }

    /// The scope part.
    pub fn scope_id(&self) -> (scope_id: u32)
        ensures
            scope_id == self.scope_id,
    {
        self.scope_id
    }
}

/// The local address that a configuration binds: `[::]:0`, no flow, no scope.
pub open spec fn unspecified_local_address() -> SocketAddressV6 {
    SocketAddressV6 { ip: Ipv6Address { bits: 0 }, port: 0, flowinfo: 0, scope_id: 0 }
}

/// An assembled configuration holds exactly what it was assembled from: the
/// session, participant, alias and salt as given (the whole salt, whatever
/// its length), the account identifier of that session and participant, the
/// local address `[::]:0` with no flow and no scope, datagrams on and no PSK.
pub proof fn lemma_assembled_configuration_holds_its_inputs(
    configuration: FaceTimeIdsQuicConfiguration,
    session_id: Seq<char>,
    participant_id: u64,
    participant_id_alias: u64,
    salt: Seq<u8>,
)
    requires
        configuration.assembled_from(session_id, participant_id, participant_id_alias, salt),
    ensures
        configuration.identity.session_id@ == session_id,
        configuration.identity.participant_id == participant_id,
        configuration.identity.participant_id_alias == participant_id_alias,
        configuration.identity.salt@.len() == salt.len(),
        forall|i: int| 0 <= i < salt.len() ==> configuration.identity.salt@[i] == #[trigger] salt[i],
        configuration.identity.account_id@ == "groupsession:"@ + session_id + ":ids:"@
            + decimal_text(participant_id as nat) + ":L"@,
        configuration.local_address.ip.bits == 0,
        configuration.local_address.port == 0,
        configuration.local_address.flowinfo == 0,
        configuration.local_address.scope_id == 0,
        configuration.datagrams_enabled,
        configuration.tls.spec_pre_shared_key_identity() is None,
{
}

/// In an identity's text, the participant, the alias and the salt's length
/// each read back as the number they show.
pub proof fn lemma_identity_text_shows_numbers(
    session_id: Seq<char>,
    participant_id: u64,
    participant_id_alias: u64,
    salt_length: nat,
    account_id: Seq<char>,
)
    ensures
        ({
            let t = identity_debug_text(
                session_id,
                participant_id,
                participant_id_alias,
                salt_length,
                account_id,
            );
            let a = "FaceTimeIdsQuicIdentity { session_id: "@.len() as int + quoted_debug_text(
                session_id,
            ).len() + ", participant_id: "@.len() as int;
            let b = a + decimal_text(participant_id as nat).len();
            let c = b + ", participant_id_alias: "@.len();
            let d = c + decimal_text(participant_id_alias as nat).len();
            let e = d + ", salt_length: "@.len();
            let f = e + decimal_text(salt_length).len();
            &&& t.subrange(b, c) == ", participant_id_alias: "@
            &&& t.subrange(d, e) == ", salt_length: "@
            &&& t.subrange(f, f + ", account_id: "@.len() as int) == ", account_id: "@
            &&& all_ascii_digits(t.subrange(a, b))
            &&& decimal_value(t.subrange(a, b)) == participant_id
            &&& all_ascii_digits(t.subrange(c, d))
            &&& decimal_value(t.subrange(c, d)) == participant_id_alias
            &&& all_ascii_digits(t.subrange(e, f))
            &&& decimal_value(t.subrange(e, f)) == salt_length
        }),
{
    reveal_strlit("FaceTimeIdsQuicIdentity { session_id: ");
    reveal_strlit(", participant_id: ");
    reveal_strlit(", participant_id_alias: ");
    reveal_strlit(", salt_length: ");
    reveal_strlit(", account_id: ");
    reveal_strlit(" }");
    lemma_decimal_text_round_trip(participant_id as nat);
    lemma_decimal_text_round_trip(participant_id_alias as nat);
    lemma_decimal_text_round_trip(salt_length);
    let p0 = "FaceTimeIdsQuicIdentity { session_id: "@ + quoted_debug_text(session_id)
        + ", participant_id: "@;
    let pid = decimal_text(participant_id as nat);
    let m1 = ", participant_id_alias: "@;
    let al = decimal_text(participant_id_alias as nat);
    let m2 = ", salt_length: "@;
    let sl = decimal_text(salt_length);
    let m3 = ", account_id: "@;
    let rest = quoted_debug_text(account_id) + " }"@;
    let t = identity_debug_text(
        session_id,
        participant_id,
        participant_id_alias,
        salt_length,
        account_id,
    );
    assert(t =~= p0 + pid + m1 + al + m2 + sl + m3 + rest);
    let a = p0.len() as int;
    let b = a + pid.len();
    let c = b + m1.len();
    let d = c + al.len();
    let e = d + m2.len();
    let f = e + sl.len();
    assert(t.subrange(a, b) =~= pid);
    assert(t.subrange(b, c) =~= m1);
    assert(t.subrange(c, d) =~= al);
    assert(t.subrange(d, e) =~= m2);
    assert(t.subrange(e, f) =~= sl);
    assert(t.subrange(f, f + m3.len() as int) =~= m3);
}

/// Who this side of the IDS channel is.
#[derive(Clone, PartialEq, Eq)]
pub struct FaceTimeIdsQuicIdentity {
    pub session_id: String,
    pub participant_id: u64,
    pub participant_id_alias: u64,
    pub salt: Vec<u8>,
    pub account_id: String,
}

/// The text that an identity shows of itself: every field but the salt,
/// of which only the length is shown.
pub open spec fn identity_debug_text(
    session_id: Seq<char>,
    participant_id: u64,
    participant_id_alias: u64,
    salt_length: nat,
    account_id: Seq<char>,
) -> Seq<char> {
    "FaceTimeIdsQuicIdentity { session_id: "@ + quoted_debug_text(session_id)
        + ", participant_id: "@ + decimal_text(participant_id as nat)
        + ", participant_id_alias: "@ + decimal_text(participant_id_alias as nat)
        + ", salt_length: "@ + decimal_text(salt_length) + ", account_id: "@
        + quoted_debug_text(account_id) + " }"@
}

impl FaceTimeIdsQuicIdentity {
    /// The text that the identity shows of itself, which leaves out the salt
    /// but for its length.
    pub fn debug_text(&self) -> (text: String)
        ensures
            text@ == identity_debug_text(
                self.session_id@,
                self.participant_id,
                self.participant_id_alias,
                self.salt@.len(),
                self.account_id@,
            ),
    {
        let mut text = String::from_str("FaceTimeIdsQuicIdentity { session_id: ");
        let session = debug_quoted(self.session_id.as_str());
        push_str(&mut text, session.as_str());
        push_str(&mut text, ", participant_id: ");
        push_decimal(&mut text, self.participant_id);
        push_str(&mut text, ", participant_id_alias: ");
        push_decimal(&mut text, self.participant_id_alias);
        push_str(&mut text, ", salt_length: ");
        push_decimal(&mut text, self.salt.len() as u64);
        push_str(&mut text, ", account_id: ");
        let account = debug_quoted(self.account_id.as_str());
        push_str(&mut text, account.as_str());
        push_str(&mut text, " }");
        text
    }
}

/// Everything a connection on the IDS channel is set up with.
#[derive(Clone, PartialEq, Eq)]
pub struct FaceTimeIdsQuicConfiguration {
    pub identity: FaceTimeIdsQuicIdentity,
    pub local_address: SocketAddressV6,
    pub datagrams_enabled: bool,
    pub tls: FaceTimeIdsQuicTlsConfiguration,
}

impl FaceTimeIdsQuicConfiguration {
    /// The configuration is the one assembled from these inputs: the identity
    /// holds them and the account identifier derived from them, the local
    /// address is unspecified, datagrams are on and TLS offers no PSK.
    pub open spec fn assembled_from(
        self,
        session_id: Seq<char>,
        participant_id: u64,
        participant_id_alias: u64,
        salt: Seq<u8>,
    ) -> bool {
        &&& self.identity.session_id@ == session_id
        &&& self.identity.participant_id == participant_id
        &&& self.identity.participant_id_alias == participant_id_alias
        &&& self.identity.salt@ == salt
        &&& self.identity.account_id@ == account_id_text(session_id, participant_id)
        &&& self.local_address == unspecified_local_address()
        &&& self.datagrams_enabled
        &&& self.tls.spec_pre_shared_key_identity() is None
    }

    /// Assembles the configuration of the production unicast connector, which
    /// uses the fixed alias salt.
    pub fn assemble_for_unicast_connector(
        session_id: String,
        participant_id: u64,
        participant_id_alias: u64,
    ) -> (r: Result<Self, FaceTimeIdsQuicError>)
        ensures
            session_id@.len() == 0 ==> r == Err::<Self, _>(FaceTimeIdsQuicError::EmptySessionId),
            session_id@.len() > 0 ==> r is Ok && r->Ok_0.assembled_from(
                session_id@,
                participant_id,
                participant_id_alias,
                fixed_alias_salt(),
            ),
    {
        let salt = slice_to_vec(FACE_TIME_IDS_ALIAS_FIXED_SALT.as_slice());
        proof {
            assert(salt@ =~= fixed_alias_salt());
        }
        Self::assemble(session_id, participant_id, participant_id_alias, salt)
    }

    /// Assembles a configuration from a session identifier, a participant and
    /// its alias, and a session salt; neither the identifier nor the salt may
    /// be empty.
    pub fn assemble(
        session_id: String,
        participant_id: u64,
        participant_id_alias: u64,
        salt: Vec<u8>,
    ) -> (r: Result<Self, FaceTimeIdsQuicError>)
        ensures
            session_id@.len() == 0 ==> r == Err::<Self, _>(FaceTimeIdsQuicError::EmptySessionId),
            session_id@.len() > 0 && salt@.len() == 0 ==> r == Err::<Self, _>(
                FaceTimeIdsQuicError::EmptySessionSalt,
            ),
            session_id@.len() > 0 && salt@.len() > 0 ==> r is Ok && r->Ok_0.assembled_from(
                session_id@,
                participant_id,
                participant_id_alias,
                salt@,
            ),
    {
        if session_id.as_str().is_empty() {
            return Err(FaceTimeIdsQuicError::EmptySessionId);
        }
        if salt.len() == 0 {
            return Err(FaceTimeIdsQuicError::EmptySessionSalt);
        }
        let account_id = face_time_ids_account_id(session_id.as_str(), participant_id);
        Ok(FaceTimeIdsQuicConfiguration {
            identity: FaceTimeIdsQuicIdentity {
                session_id,
                participant_id,
                participant_id_alias,
                salt,
                account_id,
            },
            local_address: SocketAddressV6::new(Ipv6Address::unspecified(), 0, 0, 0),
            datagrams_enabled: true,
            tls: FaceTimeIdsQuicTlsConfiguration::no_psk(),
        })
    }

    /// The identity of the pre-shared key that TLS offers, if any.
    pub fn pre_shared_key_identity(&self) -> (identity: Option<&'static str>)
        ensures
            identity == self.tls.spec_pre_shared_key_identity(),
    {
        self.tls.pre_shared_key_identity()
    }

    /// The text that the configuration shows of itself: the identity as
    /// `FaceTimeIdsQuicIdentity::debug_text` shows it, the local address as
    /// `local_address_text` has it, whether datagrams are on, and the TLS
    /// settings.
    pub open spec fn spec_debug_text(self, local_address_text: Seq<char>) -> Seq<char> {
        "FaceTimeIdsQuicConfiguration { identity: "@ + identity_debug_text(
            self.identity.session_id@,
            self.identity.participant_id,
            self.identity.participant_id_alias,
            self.identity.salt@.len(),
            self.identity.account_id@,
        ) + ", local_address: "@ + local_address_text + ", datagrams_enabled: "@ + (if self.datagrams_enabled {
            "true"@
        } else {
            "false"@
        }) + ", tls: "@ + self.tls.spec_debug_text() + " }"@
    }

    /// The text that the configuration shows of itself, given the text of its
    /// local address.
    pub fn debug_text(&self, local_address_text: &str) -> (text: String)
        ensures
            text@ == self.spec_debug_text(local_address_text@),
    {
        let mut text = String::from_str("FaceTimeIdsQuicConfiguration { identity: ");
        let identity = self.identity.debug_text();
        push_str(&mut text, identity.as_str());
        push_str(&mut text, ", local_address: ");
        push_str(&mut text, local_address_text);
        push_str(&mut text, ", datagrams_enabled: ");
        if self.datagrams_enabled {
            push_str(&mut text, "true");
        } else {
            push_str(&mut text, "false");
        }
        push_str(&mut text, ", tls: ");
        let tls = self.tls.debug_text();
        push_str(&mut text, tls.as_str());
        push_str(&mut text, " }");
        text
    }
}

} // verus!
