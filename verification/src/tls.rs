//! What the server's listeners and its replication channel need to protect their
//! traffic.

use vstd::prelude::*;

use crate::args::{is_required, text_of, ServerArgs};
use crate::model::ReplicationChannelKind;
use crate::options::{ProductionSecurityMode, ServerOption, Setting};
use crate::text::{cat, dec, show};

verus! {

/// The files with which a listener protects its traffic.
#[derive(Clone, Debug, Default, PartialEq, Eq)]
pub struct NativeTlsConfig {
    pub cert_path: String,
    pub key_path: String,
    pub client_ca_path: Option<String>,
    pub require_client_auth: bool,
}

impl NativeTlsConfig {
    /// The file with the authorities that the certificates of clients are held against; none, if
    /// clients need no certificate.
    pub fn client_ca(&self) -> (r: Result<Option<String>, String>)
        ensures
            match r {
                Ok(None) => !self.require_client_auth,
                Ok(Some(path)) => self.require_client_auth && self.client_ca_path is Some && path@
                    == self.client_ca_path->Some_0@,
                Err(e) => self.require_client_auth && self.client_ca_path is None && e@
                    == "native TLS client CA path is required when client auth is enabled"@,
            },
    {
        if !self.require_client_auth {
            return Ok(None);
        }
        match &self.client_ca_path {
            Some(path) => Ok(Some(path.as_str().to_owned())),
            None => Err(
                "native TLS client CA path is required when client auth is enabled".to_owned(),
            ),
        }
    }
}

/// The files and the name with which the replication channel protects its traffic.
#[derive(Clone, Debug, Default, PartialEq, Eq)]
pub struct ReplicationTlsConfig {
    pub server_name: String,
    pub ca_cert_path: String,
    pub client_cert_path: Option<String>,
    pub client_key_path: Option<String>,
}

/// The contents of the files and flags of a listener.
pub struct TlsFiles {
    pub cert_path: Seq<char>,
    pub key_path: Seq<char>,
    pub client_ca_path: Option<Seq<char>>,
    pub require_client_auth: bool,
}

/// The contents of the files and the name of a replication channel.
pub struct ChannelFiles {
    pub server_name: Seq<char>,
    pub ca_cert_path: Seq<char>,
    pub client_cert_path: Option<Seq<char>>,
    pub client_key_path: Option<Seq<char>>,
}

/// The contents of a text that may be missing.
pub open spec fn opt_view(s: Option<String>) -> Option<Seq<char>> {
    match s {
        Some(t) => Some(t@),
        None => None,
    }
}

impl NativeTlsConfig {
    pub open spec fn view(&self) -> TlsFiles {
        TlsFiles {
            cert_path: self.cert_path@,
            key_path: self.key_path@,
            client_ca_path: opt_view(self.client_ca_path),
            require_client_auth: self.require_client_auth,
        }
    }
}

impl ReplicationTlsConfig {
    pub open spec fn view(&self) -> ChannelFiles {
        ChannelFiles {
            server_name: self.server_name@,
            ca_cert_path: self.ca_cert_path@,
            client_cert_path: opt_view(self.client_cert_path),
            client_key_path: opt_view(self.client_key_path),
        }
    }
}

/// The options that describe one listener.
pub struct ListenerOptions {
    pub mode: ServerOption,
    pub cert: ServerOption,
    pub key: ServerOption,
    pub client_ca: ServerOption,
    pub require_client_auth: ServerOption,
}

impl ListenerOptions {
    pub open spec fn well_formed(&self) -> bool {
        &&& self.mode.kind() is Security
        &&& self.cert.kind() is Text
        &&& self.key.kind() is Text
        &&& self.client_ca.kind() is Text
        &&& self.require_client_auth.kind() is Flag
    }
}

/// What a listener protects its traffic with: nothing where its mode does not ask for
/// it, and otherwise its certificate and its key, both of which have to be set.
pub open spec fn listener_files(
    m: Map<ServerOption, Setting>,
    options: ListenerOptions,
    why: Seq<char>,
) -> Result<Option<TlsFiles>, Seq<char>> {
    if !is_required(m, options.mode) {
        Ok(None)
    } else {
        match (text_of(m, options.cert), text_of(m, options.key)) {
            (None, _) => Err(options.cert.name() + why),
            (_, None) => Err(options.key.name() + why),
            (Some(cert_path), Some(key_path)) => Ok(
                Some(
                    TlsFiles {
                        cert_path,
                        key_path,
                        client_ca_path: text_of(m, options.client_ca),
                        require_client_auth: m.dom().contains(options.require_client_auth),
                    },
                ),
            ),
        }
    }
}

/// Whether a configuration or a complaint is the one expected.
pub open spec fn gives_files(
    r: Result<Option<NativeTlsConfig>, String>,
    expected: Result<Option<TlsFiles>, Seq<char>>,
) -> bool {
    match r {
        Ok(Some(c)) => expected == Ok::<Option<TlsFiles>, Seq<char>>(Some(c@)),
        Ok(None) => expected == Ok::<Option<TlsFiles>, Seq<char>>(None),
        Err(e) => expected == Err::<Option<TlsFiles>, Seq<char>>(e@),
    }
}

pub open spec fn native_listener() -> ListenerOptions {
    ListenerOptions {
        mode: ServerOption::TlsMode,
        cert: ServerOption::NativeTlsCert,
        key: ServerOption::NativeTlsKey,
        client_ca: ServerOption::NativeTlsClientCa,
        require_client_auth: ServerOption::NativeTlsRequireClientAuth,
    }
}

pub open spec fn replication_listener() -> ListenerOptions {
    ListenerOptions {
        mode: ServerOption::ReplicationTlsMode,
        cert: ServerOption::ReplicationTlsCert,
        key: ServerOption::ReplicationTlsKey,
        client_ca: ServerOption::ReplicationTlsClientCa,
        require_client_auth: ServerOption::ReplicationTlsRequireClientAuth,
    }
}

pub open spec fn web_listener() -> ListenerOptions {
    ListenerOptions {
        mode: ServerOption::WebTlsMode,
        cert: ServerOption::WebTlsCert,
        key: ServerOption::WebTlsKey,
        client_ca: ServerOption::WebTlsClientCa,
        require_client_auth: ServerOption::WebTlsRequireClientAuth,
    }
}

/// What the replication channel protects its traffic with.
pub open spec fn channel_files(m: Map<ServerOption, Setting>) -> Result<
    Option<ChannelFiles>,
    Seq<char>,
> {
    if !is_required(m, ServerOption::ReplicationTlsMode) {
        Ok(None)
    } else {
        match text_of(m, ServerOption::ReplicationTlsCa) {
            None => Err(
                "--replication-tls-ca is required when --replication-tls-mode required"@,
            ),
            Some(ca_cert_path) => Ok(
                Some(
                    ChannelFiles {
                        server_name: match text_of(m, ServerOption::ReplicationTlsServerName) {
                            Some(name) => name,
                            None => "localhost"@,
                        },
                        ca_cert_path,
                        client_cert_path: text_of(m, ServerOption::ReplicationTlsClientCert),
                        client_key_path: text_of(m, ServerOption::ReplicationTlsClientKey),
                    },
                ),
            ),
        }
    }
}

impl ServerArgs {
    fn listener_config(&self, options: ListenerOptions, why: &str) -> (r: Result<
        Option<NativeTlsConfig>,
        String,
    >)
        requires
            self.well_formed(),
            options.well_formed(),
        ensures
            gives_files(r, listener_files(self@, options, why@)),
    {
        if self.security(options.mode) != ProductionSecurityMode::Required {
            return Ok(None);
        }
        let cert_path = match self.text(options.cert) {
            Some(p) => p,
            None => return Err(cat(options.cert.text(), why)),
        };
        let key_path = match self.text(options.key) {
            Some(p) => p,
            None => return Err(cat(options.key.text(), why)),
        };
        let client_ca_path = self.text(options.client_ca);
        let require_client_auth = self.flag(options.require_client_auth);
        Ok(Some(NativeTlsConfig { cert_path, key_path, client_ca_path, require_client_auth }))
    }

    /// What the client listener protects its traffic with.
    pub fn native_tls_config(&self) -> (r: Result<Option<NativeTlsConfig>, String>)
        requires
            self.well_formed(),
        ensures
            gives_files(
                r,
                listener_files(
                    self@,
                    native_listener(),
                    " is required when --tls-mode required"@,
                ),
            ),
    {
        let options = ListenerOptions {
            mode: ServerOption::TlsMode,
            cert: ServerOption::NativeTlsCert,
            key: ServerOption::NativeTlsKey,
            client_ca: ServerOption::NativeTlsClientCa,
            require_client_auth: ServerOption::NativeTlsRequireClientAuth,
        };
        self.listener_config(options, " is required when --tls-mode required")
    }

    /// What the replication listener protects its traffic with.
    pub fn replication_tls_acceptor_config(&self) -> (r: Result<Option<NativeTlsConfig>, String>)
        requires
            self.well_formed(),
        ensures
            gives_files(
                r,
                listener_files(
                    self@,
                    replication_listener(),
                    " is required when --replication-tls-mode required"@,
                ),
            ),
    {
        let options = ListenerOptions {
            mode: ServerOption::ReplicationTlsMode,
            cert: ServerOption::ReplicationTlsCert,
            key: ServerOption::ReplicationTlsKey,
            client_ca: ServerOption::ReplicationTlsClientCa,
            require_client_auth: ServerOption::ReplicationTlsRequireClientAuth,
        };
        self.listener_config(options, " is required when --replication-tls-mode required")
    }

    /// What the web listener protects its traffic with.
    pub fn web_tls_config(&self) -> (r: Result<Option<NativeTlsConfig>, String>)
        requires
            self.well_formed(),
        ensures
            gives_files(
                r,
                listener_files(
                    self@,
                    web_listener(),
                    " is required when --web-tls-mode required"@,
                ),
            ),
    {
        let options = ListenerOptions {
            mode: ServerOption::WebTlsMode,
            cert: ServerOption::WebTlsCert,
            key: ServerOption::WebTlsKey,
            client_ca: ServerOption::WebTlsClientCa,
            require_client_auth: ServerOption::WebTlsRequireClientAuth,
        };
        self.listener_config(options, " is required when --web-tls-mode required")
    }

    /// What the replication channel protects its traffic with.
    pub fn replication_tls_channel_config(&self) -> (r: Result<
        Option<ReplicationTlsConfig>,
        String,
    >)
        requires
            self.well_formed(),
        ensures
            match r {
                Ok(Some(c)) => channel_files(self@) == Ok::<Option<ChannelFiles>, Seq<char>>(
                    Some(c@),
                ),
                Ok(None) => channel_files(self@) == Ok::<Option<ChannelFiles>, Seq<char>>(None),
                Err(e) => channel_files(self@) == Err::<Option<ChannelFiles>, Seq<char>>(e@),
            },
    {
        if self.security(ServerOption::ReplicationTlsMode) != ProductionSecurityMode::Required {
            return Ok(None);
        }
        let server_name = match self.text(ServerOption::ReplicationTlsServerName) {
            Some(name) => name,
            None => "localhost".to_owned(),
        };
        let ca_cert_path = match self.text(ServerOption::ReplicationTlsCa) {
            Some(p) => p,
            None => return Err(
                "--replication-tls-ca is required when --replication-tls-mode required".to_owned(),
            ),
        };
        let client_cert_path = self.text(ServerOption::ReplicationTlsClientCert);
        let client_key_path = self.text(ServerOption::ReplicationTlsClientKey);
        Ok(
            Some(
                ReplicationTlsConfig {
                    server_name,
                    ca_cert_path,
                    client_cert_path,
                    client_key_path,
                },
            ),
        )
    }
}

/// The certificate and the key with which a replication client shows who it is.
pub struct ClientIdentity {
    pub cert_path: String,
    pub key_path: String,
}

/// What an attempt on the replication channel comes to.
#[derive(Debug, PartialEq, Eq)]
pub enum AfterAttempt<T> {
    /// It succeeded, and nothing more is tried.
    Sent(T),
    /// It failed, and nothing more is tried.
    Failed(String),
    /// It failed, and after a pause the attempt of that number is made.
    TryAgain(usize),
}

/// What an attempt comes to: a success is handed on, and a failure is the end once as many
/// attempts were made as are allowed. The first attempt is always made.
pub open spec fn after_attempt<T>(
    attempt: usize,
    max_attempts: usize,
    outcome: Result<T, String>,
) -> AfterAttempt<T> {
    match outcome {
        Ok(value) => AfterAttempt::Sent(value),
        Err(error) => if attempt < max_attempts {
            AfterAttempt::TryAgain((attempt + 1) as usize)
        } else {
            AfterAttempt::Failed(error)
        },
    }
}

/// How many attempts are allowed: one at least.
pub open spec fn allowed_attempts(max_attempts: usize) -> int {
    if max_attempts == 0 {
        1
    } else {
        max_attempts as int
    }
}

/// What sending comes to from the attempt of that number on, counted from one, where the
/// attempts turn out as listed: the number of the last attempt, and its outcome.
pub open spec fn sending<T>(
    outcomes: Seq<Result<T, String>>,
    attempt: usize,
    max_attempts: usize,
) -> (int, Result<T, String>)
    decreases max_attempts - attempt,
{
    match after_attempt(attempt, max_attempts, outcomes[attempt - 1]) {
        AfterAttempt::Sent(value) => (attempt as int, Ok(value)),
        AfterAttempt::Failed(error) => (attempt as int, Err(error)),
        AfterAttempt::TryAgain(next) => if attempt < max_attempts {
            sending(outcomes, next, max_attempts)
        } else {
            (attempt as int, outcomes[attempt - 1])
        },
    }
}

proof fn lemma_sending<T>(
    outcomes: Seq<Result<T, String>>,
    attempt: usize,
    max_attempts: usize,
    last: int,
)
    requires
        1 <= attempt <= last <= allowed_attempts(max_attempts) <= outcomes.len(),
        forall|i: int| attempt <= i < last ==> (#[trigger] outcomes[i - 1]) is Err,
        outcomes[last - 1] is Ok || last == allowed_attempts(max_attempts),
    ensures
        sending(outcomes, attempt, max_attempts) == (last, outcomes[last - 1]),
    decreases last - attempt,
{
    if attempt < last {
        assert(outcomes[attempt - 1] is Err);
        lemma_sending(outcomes, (attempt + 1) as usize, max_attempts, last);
    }
}

/// The first success ends the sending and is what it comes to.
pub proof fn first_success_ends_the_sending<T>(
    outcomes: Seq<Result<T, String>>,
    max_attempts: usize,
    first: int,
)
    requires
        1 <= first <= allowed_attempts(max_attempts) <= outcomes.len(),
        outcomes[first - 1] is Ok,
        forall|i: int| 0 <= i < first - 1 ==> (#[trigger] outcomes[i]) is Err,
    ensures
        sending(outcomes, 1, max_attempts) == (first, outcomes[first - 1]),
{
    lemma_sending(outcomes, 1, max_attempts, first);
}

/// Where every attempt fails, as many are made as are allowed, and the last error is handed
/// on.
pub proof fn last_error_is_handed_on<T>(outcomes: Seq<Result<T, String>>, max_attempts: usize)
    requires
        allowed_attempts(max_attempts) <= outcomes.len(),
        forall|i: int|
            0 <= i < allowed_attempts(max_attempts) ==> (#[trigger] outcomes[i]) is Err,
    ensures
        sending(outcomes, 1, max_attempts) == (
            allowed_attempts(max_attempts),
            outcomes[allowed_attempts(max_attempts) - 1],
        ),
{
    lemma_sending(outcomes, 1, max_attempts, allowed_attempts(max_attempts));
}

/// The answer of a replica to a batch of log entries.
#[derive(Clone, Copy, Debug, PartialEq, Eq, Structural)]
pub struct AppendAnswer {
    pub success: bool,
    pub term: u64,
    pub match_index: u64,
    pub conflict_index: Option<u64>,
    pub conflict_term: Option<u64>,
}

/// A number that may be missing, as `{:?}` writes it.
pub open spec fn optional_number_text(n: Option<u64>) -> Seq<char> {
    match n {
        Some(k) => "Some("@ + dec(k as nat) + ")"@,
        None => "None"@,
    }
}

pub fn show_optional_number(n: Option<u64>) -> (r: String)
    ensures
        r@ == optional_number_text(n),
{
    match n {
        Some(k) => {
            let mut s = "Some(".to_owned();
            s.append(show(k as u128).as_str());
            s.append(")");
            s
        },
        None => "None".to_owned(),
    }
}

/// A replication channel whose traffic is protected.
pub struct TlsReplicationChannel {
    config: ReplicationTlsConfig,
}

impl TlsReplicationChannel {
    /// What the channel protects its traffic with.
    pub closed spec fn view(&self) -> ChannelFiles {
        self.config@
    }

    pub fn new(config: ReplicationTlsConfig) -> (r: Self)
        ensures
            r@ == config@,
    {
        TlsReplicationChannel { config }
    }

    /// The name that the server's certificate has to carry.
    pub fn server_name(&self) -> (r: &str)
        ensures
            r@ == self@.server_name,
    {
        self.config.server_name.as_str()
    }

    /// The file of the authorities that the server's certificate is held against.
    pub fn ca_cert_path(&self) -> (r: &str)
        ensures
            r@ == self@.ca_cert_path,
    {
        self.config.ca_cert_path.as_str()
    }

    /// The transport of the channel.
    pub fn kind(&self) -> (r: ReplicationChannelKind)
        ensures
            r == ReplicationChannelKind::Tcp,
    {
        ReplicationChannelKind::Tcp
    }

    /// How the channel shows the server who it is: with a certificate and its key, or
    /// not at all. One without the other is an error.
    pub fn client_identity(&self) -> (r: Result<Option<ClientIdentity>, String>)
        ensures
            match r {
                Ok(Some(id)) => self@.client_cert_path == Some(id.cert_path@)
                    && self@.client_key_path == Some(id.key_path@),
                Ok(None) => self@.client_cert_path is None && self@.client_key_path is None,
                Err(e) => self@.client_cert_path is Some != self@.client_key_path is Some && e@
                    == "replication TLS client cert and key must be provided together"@,
            },
    {
        match (&self.config.client_cert_path, &self.config.client_key_path) {
            (Some(cert), Some(key)) => Ok(
                Some(ClientIdentity { cert_path: cert.clone(), key_path: key.clone() }),
            ),
            (None, None) => Ok(None),
            _ => Err("replication TLS client cert and key must be provided together".to_owned()),
        }
    }

    /// What the attempt of that number, counted from one, comes to by its outcome: the
    /// operation is tried `max_attempts` times, and once where that is zero.
    pub fn after_attempt<T>(
        attempt: usize,
        max_attempts: usize,
        outcome: Result<T, String>,
    ) -> (r: AfterAttempt<T>)
        ensures
            r == after_attempt(attempt, max_attempts, outcome),
    {
        match outcome {
            Ok(value) => AfterAttempt::Sent(value),
            Err(error) => if attempt < max_attempts {
                AfterAttempt::TryAgain(attempt + 1)
            } else {
                AfterAttempt::Failed(error)
            },
        }
    }

    /// What a replica's answer to a batch comes to: nothing to complain of where it took
    /// the batch, and otherwise what it rejected.
    pub fn append_complaint(answer: AppendAnswer) -> (r: Option<String>)
        ensures
            match r {
                None => answer.success,
                Some(e) => !answer.success && e@ == "raft append rejected term="@ + dec(
                    answer.term as nat,
                ) + " conflict_index="@ + optional_number_text(answer.conflict_index)
                    + " conflict_term="@ + optional_number_text(answer.conflict_term),
            },
    {
        if answer.success {
            return None;
        }
        let mut e = "raft append rejected term=".to_owned();
        e.append(show(answer.term as u128).as_str());
        e.append(" conflict_index=");
        e.append(show_optional_number(answer.conflict_index).as_str());
        e.append(" conflict_term=");
        e.append(show_optional_number(answer.conflict_term).as_str());
        Some(e)
    }
}

} // verus!
