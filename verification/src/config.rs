//! Configuration files: where the command line names them, and the arguments that a
//! file of `key=value` lines or a structured file stands for.

use vstd::prelude::*;

use crate::args::{arguments_outcome, default_settings, ServerArgs};
use crate::daemon::{option_args, peer_args, peer_text};
use crate::options::{
    arguments_are_read_in_order, find_option, option_named, settings_after, OptionKind,
    ServerOption, Setting,
};
use crate::settings::{
    as_nat_u32, as_nat_u64, as_nat_u8, as_nat_usize, flag_setting, number_setting, text_setting,
};
use crate::text::{
    cat, cat3, dec, ends, ends_with, lemma_views_push, lines, lines_of, lower, lowered, same, show,
    split, split_first, split_on, split_once, swap_char, swapped_char, trim, trimmed, views,
};

verus! {

/// The parts of a path: what stands between its slashes, without the empty parts and
/// the dots that name no directory of their own.
pub open spec fn path_parts(path: Seq<char>) -> Seq<Seq<char>> {
    kept_parts(split(path, '/'))
}

pub open spec fn kept_parts(parts: Seq<Seq<char>>) -> Seq<Seq<char>>
    decreases parts.len(),
{
    if parts.len() == 0 {
        Seq::<Seq<char>>::empty()
    } else if parts.last().len() == 0 || parts.last() == "."@ && parts.len() > 1 {
        kept_parts(parts.drop_last())
    } else {
        kept_parts(parts.drop_last()).push(parts.last())
    }
}

/// Splits a path into its parts.
pub fn path_parts_of(path: &str) -> (r: Vec<String>)
    ensures
        views(r@) == path_parts(path@),
{
    let parts = split_on(path, '/');
    let ghost all = split(path@, '/');
    let mut r: Vec<String> = Vec::new();
    let mut i: usize = 0;
    assert(all.take(0) =~= Seq::<Seq<char>>::empty());
    assert(views(r@) =~= Seq::<Seq<char>>::empty());
    while i < parts.len()
        invariant
            0 <= i <= parts@.len(),
            all == views(parts@),
            views(r@) == kept_parts(all.take(i as int)),
        decreases parts@.len() - i,
    {
        let ghost next = all.take(i + 1);
        assert(next.drop_last() =~= all.take(i as int));
        assert(next.last() == parts@[i as int]@);
        let empty = parts[i].as_str().is_empty();
        let dot = same(parts[i].as_str(), ".") && i > 0;
        if !empty && !dot {
            let part = parts[i].clone();
            proof {
                lemma_views_push(r@, part);
            }
            r.push(part);
        }
        i = i + 1;
    }
    assert(all.take(all.len() as int) =~= all);
    r
}

/// Whether a path names a structured configuration file, by its extension.
pub open spec fn is_yaml_path(path: Seq<char>) -> bool {
    let parts = path_parts(path);
    &&& parts.len() > 0
    &&& (ends(parts.last(), ".yaml"@) && parts.last().len() > ".yaml"@.len() || ends(
        parts.last(),
        ".yml"@,
    ) && parts.last().len() > ".yml"@.len())
}

/// Tells whether a path names a structured configuration file.
pub fn names_yaml(path: &str) -> (r: bool)
    ensures
        r == is_yaml_path(path@),
{
    let parts = path_parts_of(path);
    if parts.len() == 0 {
        return false;
    }
    let name = parts[parts.len() - 1].as_str();
    assert(name@ == path_parts(path@).last());
    let long_yaml = ends_with(name, ".yaml") && !same(name, ".yaml");
    let long_yml = ends_with(name, ".yml") && !same(name, ".yml");
    proof {
        if ends(name@, ".yaml"@) && name@.len() == ".yaml"@.len() {
            assert(name@.skip(0) =~= name@);
        }
        if ends(name@, ".yml"@) && name@.len() == ".yml"@.len() {
            assert(name@.skip(0) =~= name@);
        }
    }
    long_yaml || long_yml
}

/// The paths that follow `--config` in a list of arguments.
pub open spec fn config_paths(args: Seq<Seq<char>>) -> Result<Seq<Seq<char>>, Seq<char>>
    decreases args.len(),
{
    if args.len() == 0 {
        Ok(Seq::<Seq<char>>::empty())
    } else if args[0] != "--config"@ {
        config_paths(args.skip(1))
    } else if args.len() < 2 {
        Err("--config requires a path"@)
    } else {
        after(seq![args[1]], config_paths(args.skip(2)))
    }
}

/// A list of arguments without `--config` and the paths that follow it.
pub open spec fn own_args(args: Seq<Seq<char>>) -> Result<Seq<Seq<char>>, Seq<char>>
    decreases args.len(),
{
    if args.len() == 0 {
        Ok(Seq::<Seq<char>>::empty())
    } else if args[0] != "--config"@ {
        after(seq![args[0]], own_args(args.skip(1)))
    } else if args.len() < 2 {
        Err("--config requires a path"@)
    } else {
        own_args(args.skip(2))
    }
}

/// A list put before another that may not be had.
pub open spec fn after(
    first: Seq<Seq<char>>,
    rest: Result<Seq<Seq<char>>, Seq<char>>,
) -> Result<Seq<Seq<char>>, Seq<char>> {
    match rest {
        Ok(more) => Ok(first + more),
        Err(e) => Err(e),
    }
}

pub proof fn lemma_after_after(
    a: Seq<Seq<char>>,
    b: Seq<Seq<char>>,
    rest: Result<Seq<Seq<char>>, Seq<char>>,
)
    ensures
        after(a, after(b, rest)) == after(a + b, rest),
{
    if let Ok(more) = rest {
        assert(a + (b + more) =~= a + b + more);
    }
}

/// Whether a list or a complaint is the one expected.
pub open spec fn gives_list(
    r: Result<Vec<String>, String>,
    expected: Result<Seq<Seq<char>>, Seq<char>>,
) -> bool {
    match r {
        Ok(v) => expected == Ok::<Seq<Seq<char>>, Seq<char>>(views(v@)),
        Err(e) => expected == Err::<Seq<Seq<char>>, Seq<char>>(e@),
    }
}

/// Collects the paths that follow `--config`.
pub fn config_paths_from_args(args: &[String]) -> (r: Result<Vec<String>, String>)
    ensures
        gives_list(r, config_paths(views(args@))),
{
    let mut paths: Vec<String> = Vec::new();
    let ghost all = views(args@);
    let mut i: usize = 0;
    assert(all.skip(0) =~= all);
    assert(after(views(paths@), config_paths(all)) == config_paths(all)) by {
        if let Ok(more) = config_paths(all) {
            assert(views(paths@) + more =~= more);
        }
    }
    while i < args.len()
        invariant
            0 <= i <= args@.len(),
            all == views(args@),
            after(views(paths@), config_paths(all.skip(i as int))) == config_paths(all),
        decreases args@.len() - i,
    {
        let ghost rest = all.skip(i as int);
        assert(rest[0] == args@[i as int]@);
        if !same(args[i].as_str(), "--config") {
            assert(rest.skip(1) =~= all.skip(i + 1));
            i = i + 1;
        } else {
            if args.len() - i < 2 {
                return Err("--config requires a path".to_owned());
            }
            assert(rest[1] == args@[i + 1]@);
            assert(rest.skip(2) =~= all.skip(i + 2));
            let path = args[i + 1].clone();
            proof {
                lemma_after_after(views(paths@), seq![rest[1]], config_paths(all.skip(i + 2)));
                lemma_views_push(paths@, path);
                assert(views(paths@).push(path@) =~= views(paths@) + seq![rest[1]]);
            }
            paths.push(path);
            i = i + 2;
        }
    }
    assert(all.skip(i as int) =~= Seq::<Seq<char>>::empty());
    assert(views(paths@) + Seq::<Seq<char>>::empty() =~= views(paths@));
    Ok(paths)
}

/// Leaves `--config` and the paths that follow it out of a list of arguments.
pub fn args_without_config_args(args: &[String]) -> (r: Result<Vec<String>, String>)
    ensures
        gives_list(r, own_args(views(args@))),
{
    let mut out: Vec<String> = Vec::new();
    let ghost all = views(args@);
    let mut i: usize = 0;
    assert(all.skip(0) =~= all);
    assert(after(views(out@), own_args(all)) == own_args(all)) by {
        if let Ok(more) = own_args(all) {
            assert(views(out@) + more =~= more);
        }
    }
    while i < args.len()
        invariant
            0 <= i <= args@.len(),
            all == views(args@),
            after(views(out@), own_args(all.skip(i as int))) == own_args(all),
        decreases args@.len() - i,
    {
        let ghost rest = all.skip(i as int);
        assert(rest[0] == args@[i as int]@);
        if same(args[i].as_str(), "--config") {
            if args.len() - i < 2 {
                return Err("--config requires a path".to_owned());
            }
            assert(rest.skip(2) =~= all.skip(i + 2));
            i = i + 2;
        } else {
            assert(rest.skip(1) =~= all.skip(i + 1));
            let arg = args[i].clone();
            proof {
                lemma_after_after(views(out@), seq![rest[0]], own_args(all.skip(i + 1)));
                lemma_views_push(out@, arg);
                assert(views(out@).push(arg@) =~= views(out@) + seq![rest[0]]);
            }
            out.push(arg);
            i = i + 1;
        }
    }
    assert(all.skip(i as int) =~= Seq::<Seq<char>>::empty());
    assert(views(out@) + Seq::<Seq<char>>::empty() =~= views(out@));
    Ok(out)
}

/// The arguments of several files, one file after the other.
pub open spec fn all_args(files: Seq<Vec<String>>) -> Seq<Seq<char>>
    decreases files.len(),
{
    if files.len() == 0 {
        Seq::<Seq<char>>::empty()
    } else {
        all_args(files.drop_last()) + views(files.last()@)
    }
}

/// A list of arguments with what the configuration files say put first.
pub open spec fn expanded_args(args: Seq<Seq<char>>, files: Seq<Vec<String>>) -> Result<
    Seq<Seq<char>>,
    Seq<char>,
> {
    after(all_args(files), own_args(args))
}

/// Puts what the configuration files say before the arguments of the command line.
pub fn expand_config_args(args: &[String], files: &[Vec<String>]) -> (r: Result<
    Vec<String>,
    String,
>)
    ensures
        gives_list(r, expanded_args(views(args@), files@)),
{
    let mut out: Vec<String> = Vec::new();
    let mut i: usize = 0;
    assert(files@.take(0) =~= Seq::<Vec<String>>::empty());
    assert(views(out@) =~= Seq::<Seq<char>>::empty());
    while i < files.len()
        invariant
            0 <= i <= files@.len(),
            views(out@) == all_args(files@.take(i as int)),
        decreases files@.len() - i,
    {
        assert(files@.take(i + 1).drop_last() =~= files@.take(i as int));
        append_args(&mut out, &files[i]);
        i = i + 1;
    }
    assert(files@.take(files@.len() as int) =~= files@);
    match args_without_config_args(args) {
        Ok(own) => {
            append_args(&mut out, &own);
            Ok(out)
        },
        Err(e) => Err(e),
    }
}

/// Appends a list of arguments to another.
fn append_args(out: &mut Vec<String>, more: &Vec<String>)
    ensures
        views(final(out)@) == views(old(out)@) + views(more@),
{
    let ghost before = views(out@);
    let mut i: usize = 0;
    assert(before + views(more@).take(0) =~= before);
    while i < more.len()
        invariant
            0 <= i <= more@.len(),
            views(out@) == before + views(more@).take(i as int),
        decreases more@.len() - i,
    {
        let arg = more[i].clone();
        proof {
            lemma_views_push(out@, arg);
        }
        out.push(arg);
        assert(views(more@).take(i + 1) =~= views(more@).take(i as int).push(arg@));
        assert((before + views(more@).take(i as int)).push(arg@) =~= before + views(more@).take(
            i + 1,
        ));
        i = i + 1;
    }
    assert(views(more@).take(more@.len() as int) =~= views(more@));
}

/// The settings that a server is started with when its command line names
/// configuration files that stand for the arguments `files`.
pub open spec fn start_outcome(
    args: Seq<Seq<char>>,
    files: Seq<Vec<String>>,
    workers: nat,
) -> Result<Map<ServerOption, Setting>, Seq<char>> {
    match expanded_args(args, files) {
        Ok(all) => arguments_outcome(all, workers),
        Err(e) => Err(e),
    }
}

impl ServerArgs {
    /// Reads a command line. `files` holds, for each configuration file that it names,
    /// the arguments that the file stands for.
    pub fn parse(args: &[String], files: &[Vec<String>], workers: usize) -> (r: Result<
        Self,
        String,
    >)
        ensures
            match r {
                Ok(a) => a.well_formed() && start_outcome(views(args@), files@, workers as nat)
                    == Ok::<Map<ServerOption, Setting>, Seq<char>>(a@),
                Err(e) => start_outcome(views(args@), files@, workers as nat) == Err::<
                    Map<ServerOption, Setting>,
                    Seq<char>,
                >(e@),
            },
    {
        match expand_config_args(args, files) {
            Ok(all) => ServerArgs::parse_expanded(all.as_slice(), workers),
            Err(e) => Err(e),
        }
    }
}

/// What the command line says comes after what the configuration files say: it is
/// read on top of the settings that they make, whatever their place on the command
/// line.
pub proof fn command_line_overrides_configuration(
    args: Seq<Seq<char>>,
    files: Seq<Vec<String>>,
    workers: nat,
)
    requires
        own_args(args) is Ok,
        settings_after(all_args(files), default_settings(workers)) is Ok,
    ensures
        expanded_args(args, files) is Ok,
        settings_after(expanded_args(args, files)->Ok_0, default_settings(workers))
            == settings_after(
            own_args(args)->Ok_0,
            settings_after(all_args(files), default_settings(workers))->Ok_0,
        ),
{
    arguments_are_read_in_order(
        all_args(files),
        own_args(args)->Ok_0,
        default_settings(workers),
    );
}

/// The truth value written in a configuration file.
pub open spec fn config_bool(value: Seq<char>) -> Option<bool> {
    let v = lower(value);
    if v == "true"@ || v == "yes"@ || v == "1"@ || v == "on"@ {
        Some(true)
    } else if v == "false"@ || v == "no"@ || v == "0"@ || v == "off"@ {
        Some(false)
    } else {
        None
    }
}

fn read_config_bool(value: &str) -> (r: Option<bool>)
    ensures
        r == config_bool(value@),
{
    let lowered_value = lowered(value);
    let v = lowered_value.as_str();
    if same(v, "true") || same(v, "yes") || same(v, "1") || same(v, "on") {
        Some(true)
    } else if same(v, "false") || same(v, "no") || same(v, "0") || same(v, "off") {
        Some(false)
    } else {
        None
    }
}

/// A complaint about a line of a configuration file.
pub open spec fn config_complaint(line_no: nat, what: Seq<char>) -> Seq<char> {
    "config line "@ + dec(line_no) + what
}

fn complain_config(line_no: usize, what: &str) -> (r: String)
    ensures
        r@ == config_complaint(line_no as nat, what@),
{
    cat3("config line ", show(line_no as u128).as_str(), what)
}

/// The truth value written on a line of a configuration file.
pub fn parse_config_bool(value: &str, line_no: usize) -> (r: Result<bool, String>)
    ensures
        match r {
            Ok(b) => config_bool(value@) == Some(b),
            Err(e) => config_bool(value@) is None && e@ == config_complaint(
                line_no as nat,
                " boolean value must be true or false"@,
            ),
        },
{
    match read_config_bool(value) {
        Some(b) => Ok(b),
        None => Err(complain_config(line_no, " boolean value must be true or false")),
    }
}

/// The arguments that a key and a value on a line of a configuration file stand for.
/// Keys are the names of options, with underscores in the place of hyphens if the
/// author likes.
pub open spec fn key_args(key: Seq<char>, value: Seq<char>, line_no: nat) -> Result<
    Seq<Seq<char>>,
    Seq<char>,
> {
    let name = swap_char(key, '_', '-');
    let flag = "--"@ + name;
    match option_named(flag) {
        None => Err(config_complaint(line_no, " has unknown key "@ + name)),
        Some(o) => if o.kind() is Flag {
            match config_bool(value) {
                None => Err(config_complaint(line_no, " boolean value must be true or false"@)),
                Some(true) => Ok(seq![flag]),
                Some(false) => Ok(Seq::<Seq<char>>::empty()),
            }
        } else if value.len() == 0 {
            Err(config_complaint(line_no, " value cannot be empty"@))
        } else {
            Ok(seq![flag, value])
        },
    }
}

/// Turns a key and a value into arguments.
pub fn append_config_arg(key: &str, value: &str, line_no: usize) -> (r: Result<
    Vec<String>,
    String,
>)
    ensures
        gives_list(r, key_args(key@, value@, line_no as nat)),
{
    let name = swapped_char(key, '_', '-');
    let flag = cat("--", name.as_str());
    let ghost flag_text = flag@;
    let mut out: Vec<String> = Vec::new();
    assert(views(out@) =~= Seq::<Seq<char>>::empty());
    match find_option(flag.as_str()) {
        None => Err(complain_config(line_no, cat(" has unknown key ", name.as_str()).as_str())),
        Some(o) => if o.takes() == OptionKind::Flag {
            match parse_config_bool(value, line_no) {
                Ok(b) => {
                    if b {
                        out.push(flag);
                        assert(views(out@) =~= seq![flag_text]);
                    }
                    Ok(out)
                },
                Err(e) => Err(e),
            }
        } else if value.is_empty() {
            Err(complain_config(line_no, " value cannot be empty"))
        } else {
            out.push(flag);
            out.push(value.to_owned());
            assert(views(out@) =~= seq![flag_text, value@]);
            Ok(out)
        },
    }
}

/// A line without its comment and the white space round it.
pub open spec fn plain_line(line: Seq<char>) -> Seq<char> {
    trim(split(line, '#')[0])
}

pub fn plain_line_of(line: &str) -> (r: String)
    ensures
        r@ == plain_line(line@),
{
    let parts = split_on(line, '#');
    assert(views(parts@)[0] == parts@[0]@);
    trimmed(parts[0].as_str())
}

/// The arguments that a line of a configuration file stands for.
pub open spec fn line_args(line: Seq<char>, line_no: nat) -> Result<Seq<Seq<char>>, Seq<char>> {
    let plain = plain_line(line);
    if plain.len() == 0 {
        Ok(Seq::<Seq<char>>::empty())
    } else {
        match split_once(plain, "="@) {
            None => Err(config_complaint(line_no, " must be key=value"@)),
            Some((key, value)) => key_args(trim(key), trim(value), line_no),
        }
    }
}

fn read_line_args(line: &str, line_no: usize) -> (r: Result<Vec<String>, String>)
    ensures
        gives_list(r, line_args(line@, line_no as nat)),
{
    let plain = plain_line_of(line);
    if plain.as_str().is_empty() {
        let out: Vec<String> = Vec::new();
        assert(views(out@) =~= Seq::<Seq<char>>::empty());
        return Ok(out);
    }
    match split_first(plain.as_str(), "=") {
        None => Err(complain_config(line_no, " must be key=value")),
        Some((key, value)) => append_config_arg(
            trimmed(key.as_str()).as_str(),
            trimmed(value.as_str()).as_str(),
            line_no,
        ),
    }
}

/// The arguments that the lines from the `i`-th on stand for; the first line that is
/// wrong is complained of.
pub open spec fn lines_args(all: Seq<Seq<char>>, i: int) -> Result<Seq<Seq<char>>, Seq<char>>
    decreases all.len() - i,
{
    if i < 0 || i >= all.len() {
        Ok(Seq::<Seq<char>>::empty())
    } else {
        match line_args(all[i], (i + 1) as nat) {
            Err(e) => Err(e),
            Ok(args) => after(args, lines_args(all, i + 1)),
        }
    }
}

/// The arguments that a file of `key=value` lines stands for.
pub fn key_value_config_args(contents: &str) -> (r: Result<Vec<String>, String>)
    ensures
        gives_list(r, lines_args(lines(contents@), 0)),
{
    let file = lines_of(contents);
    let ghost all = lines(contents@);
    let mut out: Vec<String> = Vec::new();
    let mut i: usize = 0;
    assert(after(views(out@), lines_args(all, 0)) == lines_args(all, 0)) by {
        if let Ok(more) = lines_args(all, 0) {
            assert(views(out@) + more =~= more);
        }
    }
    while i < file.len()
        invariant
            0 <= i <= file@.len(),
            all == lines(contents@),
            all == views(file@),
            after(views(out@), lines_args(all, i as int)) == lines_args(all, 0),
        decreases file@.len() - i,
    {
        assert(all[i as int] == file@[i as int]@);
        match read_line_args(file[i].as_str(), i + 1) {
            Err(e) => return Err(e),
            Ok(args) => {
                proof {
                    lemma_after_after(views(out@), views(args@), lines_args(all, i + 1));
                }
                append_args(&mut out, &args);
            },
        }
        i = i + 1;
    }
    assert(views(out@) + Seq::<Seq<char>>::empty() =~= views(out@));
    Ok(out)
}

/// A peer of a structured configuration file.
#[derive(Clone, Debug, PartialEq, Eq)]
pub struct PeerConfig {
    pub server_id: u64,
    pub address: String,
    pub role: Option<String>,
}

pub open spec fn config_peer(p: PeerConfig) -> (u64, Seq<char>) {
    (p.server_id, p.address@)
}

pub open spec fn config_peers(peers: Seq<PeerConfig>) -> Seq<(u64, Seq<char>)> {
    peers.map_values(|p: PeerConfig| config_peer(p))
}

/// The option under which a peer of the replication section is given: its role says
/// whether it is a replica, takes queries, or is a peer like any other.
pub open spec fn role_option(role: Option<String>) -> ServerOption {
    match role {
        Some(r) => if r@ == "replica"@ {
            ServerOption::ReplicaPeer
        } else if r@ == "query"@ {
            ServerOption::QueryPeer
        } else {
            ServerOption::Peer
        },
        None => ServerOption::Peer,
    }
}

pub open spec fn role_args(peers: Seq<PeerConfig>) -> Seq<Seq<char>>
    decreases peers.len(),
{
    if peers.len() == 0 {
        Seq::<Seq<char>>::empty()
    } else {
        role_args(peers.drop_last()) + seq![
            role_option(peers.last().role).name(),
            peer_text(config_peer(peers.last())),
        ]
    }
}

/// The `server` section of a structured configuration file.
#[derive(Clone, Debug)]
pub struct ServerSection {
    pub bind: Option<String>,
    pub data_dir: Option<String>,
    pub server_id: Option<u64>,
    pub workers: Option<usize>,
    pub queue_capacity: Option<usize>,
    pub page_size: Option<usize>,
    pub primary_server_id: Option<u64>,
    pub routing_table: Option<String>,
    pub daemonize: Option<bool>,
}

/// The `database` section of a structured configuration file.
#[derive(Clone, Debug)]
pub struct DatabaseSection {
    pub shards: Option<u64>,
    pub partitions: Option<usize>,
}

/// The `query` section of a structured configuration file.
#[derive(Clone, Debug)]
pub struct QuerySection {
    pub read_preference: Option<String>,
    pub peers: Vec<PeerConfig>,
}

/// The `gossip` section of a structured configuration file.
#[derive(Clone, Debug)]
pub struct GossipSection {
    pub advertise_query: Option<String>,
    pub advertise_replication: Option<String>,
    pub interval_ms: Option<u64>,
    pub ttl_ms: Option<u64>,
    pub fanout: Option<usize>,
    pub auth_token: Option<String>,
    pub auto_negotiate_replication: Option<bool>,
    pub seed_peers: Vec<PeerConfig>,
}

/// The `replication` section of a structured configuration file.
#[derive(Clone, Debug)]
pub struct ReplicationSection {
    pub bind: Option<String>,
    pub transport: Option<String>,
    pub ack: Option<String>,
    pub connect_timeout_ms: Option<u64>,
    pub retry_attempts: Option<usize>,
    pub retry_backoff_ms: Option<u64>,
    pub max_in_flight_batches: Option<usize>,
    pub replica_peers: Vec<PeerConfig>,
    pub peers: Vec<PeerConfig>,
    pub catch_up_on_startup: Option<bool>,
    pub catch_up_interval_ms: Option<u64>,
    pub catch_up_batch_size: Option<usize>,
}

/// The `web` section of a structured configuration file.
#[derive(Clone, Debug)]
pub struct WebSection {
    pub bind: Option<String>,
    pub auth_token: Option<String>,
    pub slow_query_threshold_ms: Option<u64>,
}

/// The `maintenance` section of a structured configuration file.
#[derive(Clone, Debug)]
pub struct MaintenanceSection {
    pub sync_index_catalog_on_startup: Option<bool>,
    pub sync_index_catalog_interval_ms: Option<u64>,
    pub recover_transactions_on_startup: Option<bool>,
    pub recover_transactions_interval_ms: Option<u64>,
}

/// The `production` section of a structured configuration file.
#[derive(Clone, Debug)]
pub struct ProductionSection {
    pub tls_mode: Option<String>,
    pub replication_tls_mode: Option<String>,
    pub web_tls_mode: Option<String>,
    pub native_tls_cert: Option<String>,
    pub native_tls_key: Option<String>,
    pub native_tls_client_ca: Option<String>,
    pub native_tls_require_client_auth: Option<bool>,
    pub web_tls_cert: Option<String>,
    pub web_tls_key: Option<String>,
    pub web_tls_client_ca: Option<String>,
    pub web_tls_require_client_auth: Option<bool>,
    pub replication_tls_cert: Option<String>,
    pub replication_tls_key: Option<String>,
    pub replication_tls_client_ca: Option<String>,
    pub replication_tls_require_client_auth: Option<bool>,
    pub replication_tls_ca: Option<String>,
    pub replication_tls_server_name: Option<String>,
    pub replication_tls_client_cert: Option<String>,
    pub replication_tls_client_key: Option<String>,
    pub min_native_protocol_version: Option<u8>,
    pub max_native_protocol_version: Option<u8>,
    pub backup_drill_max_age_hours: Option<u64>,
    pub wal_archive_dir: Option<String>,
    pub restore_drill_manifest: Option<String>,
    pub audit_retention_days: Option<u64>,
    pub secret_rotation_days: Option<u64>,
    pub tenant_max_concurrent_queries: Option<usize>,
    pub tenant_max_result_rows: Option<usize>,
    pub data_format_version: Option<u32>,
    pub upgrade_manifest: Option<String>,
    pub raft_lease_clock_drift_bound_ms: Option<u64>,
    pub raft_lease_message_delay_bound_ms: Option<u64>,
    pub observability_alerts: Option<String>,
    pub repair_check_on_startup: Option<bool>,
    pub query_regression_corpus: Option<String>,
    pub chaos_gate_required: Option<bool>,
    pub runbook: Option<String>,
    pub systemd_unit: Option<String>,
    pub logrotate: Option<String>,
}

/// A structured configuration file.
#[derive(Clone, Debug)]
pub struct ServerConfigFile {
    pub server: ServerSection,
    pub database: DatabaseSection,
    pub replication: ReplicationSection,
    pub query: QuerySection,
    pub gossip: GossipSection,
    pub web: WebSection,
    pub maintenance: MaintenanceSection,
    pub production: ProductionSection,
}

fn push_arg(out: &mut Vec<String>, s: String)
    ensures
        views(final(out)@) == views(old(out)@).push(s@),
{
    proof {
        lemma_views_push(out@, s);
    }
    out.push(s);
}

fn push_pair(out: &mut Vec<String>, o: ServerOption, value: String)
    ensures
        views(final(out)@) == views(old(out)@) + seq![o.name(), value@],
{
    let ghost before = views(out@);
    push_arg(out, o.text().to_owned());
    push_arg(out, value);
    assert(views(out@) =~= before + seq![o.name(), value@]);
}

fn push_option(out: &mut Vec<String>, o: ServerOption, value: &Option<String>)
    ensures
        views(final(out)@) == views(old(out)@) + option_args(o, text_setting(*value)),
{
    assert(views(out@) + Seq::<Seq<char>>::empty() =~= views(out@));
    if let Some(s) = value {
        push_pair(out, o, s.clone());
    }
}

fn push_option_u64(out: &mut Vec<String>, o: ServerOption, value: Option<u64>)
    ensures
        views(final(out)@) == views(old(out)@) + option_args(o, number_setting(as_nat_u64(value))),
{
    assert(views(out@) + Seq::<Seq<char>>::empty() =~= views(out@));
    if let Some(n) = value {
        push_pair(out, o, show(n as u128));
    }
}

fn push_option_usize(out: &mut Vec<String>, o: ServerOption, value: Option<usize>)
    ensures
        views(final(out)@) == views(old(out)@) + option_args(o, number_setting(as_nat_usize(value))),
{
    assert(views(out@) + Seq::<Seq<char>>::empty() =~= views(out@));
    if let Some(n) = value {
        push_pair(out, o, show(n as u128));
    }
}

fn push_option_u32(out: &mut Vec<String>, o: ServerOption, value: Option<u32>)
    ensures
        views(final(out)@) == views(old(out)@) + option_args(o, number_setting(as_nat_u32(value))),
{
    assert(views(out@) + Seq::<Seq<char>>::empty() =~= views(out@));
    if let Some(n) = value {
        push_pair(out, o, show(n as u128));
    }
}

fn push_option_u8(out: &mut Vec<String>, o: ServerOption, value: Option<u8>)
    ensures
        views(final(out)@) == views(old(out)@) + option_args(o, number_setting(as_nat_u8(value))),
{
    assert(views(out@) + Seq::<Seq<char>>::empty() =~= views(out@));
    if let Some(n) = value {
        push_pair(out, o, show(n as u128));
    }
}

fn push_bool(out: &mut Vec<String>, o: ServerOption, value: Option<bool>)
    ensures
        views(final(out)@) == views(old(out)@) + option_args(o, flag_setting(value == Some(true))),
{
    let ghost before = views(out@);
    assert(before + Seq::<Seq<char>>::empty() =~= before);
    if let Some(b) = value {
        if b {
            push_arg(out, o.text().to_owned());
            assert(views(out@) =~= before + seq![o.name()]);
        }
    }
}

fn push_peers(out: &mut Vec<String>, o: ServerOption, peers: &Vec<PeerConfig>)
    ensures
        views(final(out)@) == views(old(out)@) + peer_args(o, config_peers(peers@)),
{
    let ghost before = views(out@);
    let ghost all = config_peers(peers@);
    let mut i: usize = 0;
    assert(all.take(0) =~= Seq::<(u64, Seq<char>)>::empty());
    assert(before + Seq::<Seq<char>>::empty() =~= before);
    while i < peers.len()
        invariant
            0 <= i <= peers@.len(),
            all == config_peers(peers@),
            views(out@) == before + peer_args(o, all.take(i as int)),
        decreases peers@.len() - i,
    {
        let ghost done = peer_args(o, all.take(i as int));
        assert(all.take(i + 1).drop_last() =~= all.take(i as int));
        assert(all.take(i + 1).last() == config_peer(peers@[i as int]));
        let text = cat3(
            show(peers[i].server_id as u128).as_str(),
            "=",
            peers[i].address.as_str(),
        );
        push_pair(out, o, text);
        assert((before + done) + seq![o.name(), text@] =~= before + (done + seq![o.name(), text@]));
        i = i + 1;
    }
    assert(all.take(all.len() as int) =~= all);
}

fn option_of_role(role: &Option<String>) -> (o: ServerOption)
    ensures
        o == role_option(*role),
{
    match role {
        Some(r) => if same(r.as_str(), "replica") {
            ServerOption::ReplicaPeer
        } else if same(r.as_str(), "query") {
            ServerOption::QueryPeer
        } else {
            ServerOption::Peer
        },
        None => ServerOption::Peer,
    }
}

fn push_peers_by_role(out: &mut Vec<String>, peers: &Vec<PeerConfig>)
    ensures
        views(final(out)@) == views(old(out)@) + role_args(peers@),
{
    let ghost before = views(out@);
    let mut i: usize = 0;
    assert(peers@.take(0) =~= Seq::<PeerConfig>::empty());
    assert(before + Seq::<Seq<char>>::empty() =~= before);
    while i < peers.len()
        invariant
            0 <= i <= peers@.len(),
            views(out@) == before + role_args(peers@.take(i as int)),
        decreases peers@.len() - i,
    {
        let ghost done = role_args(peers@.take(i as int));
        assert(peers@.take(i + 1).drop_last() =~= peers@.take(i as int));
        let o = option_of_role(&peers[i].role);
        let text = cat3(
            show(peers[i].server_id as u128).as_str(),
            "=",
            peers[i].address.as_str(),
        );
        push_pair(out, o, text);
        assert((before + done) + seq![o.name(), text@] =~= before + (done + seq![o.name(), text@]));
        i = i + 1;
    }
    assert(peers@.take(peers@.len() as int) =~= peers@);
}

impl ServerSection {
    /// The arguments that the section stands for.
    pub open spec fn args(&self) -> Seq<Seq<char>> {
        Seq::<Seq<char>>::empty()
            + option_args(ServerOption::Bind, text_setting(self.bind))
            + option_args(ServerOption::DataDir, text_setting(self.data_dir))
            + option_args(ServerOption::ServerId, number_setting(as_nat_u64(self.server_id)))
            + option_args(ServerOption::Workers, number_setting(as_nat_usize(self.workers)))
            + option_args(ServerOption::QueueCapacity, number_setting(as_nat_usize(self.queue_capacity)))
            + option_args(ServerOption::PageSize, number_setting(as_nat_usize(self.page_size)))
            + option_args(ServerOption::PrimaryServerId, number_setting(as_nat_u64(self.primary_server_id)))
            + option_args(ServerOption::RoutingTable, text_setting(self.routing_table))
            + option_args(ServerOption::Daemonize, flag_setting(self.daemonize == Some(true)))
    }

    fn to_args(&self) -> (r: Vec<String>)
        ensures
            views(r@) == self.args(),
    {
        let mut out: Vec<String> = Vec::new();
        assert(views(out@) =~= Seq::<Seq<char>>::empty());
        push_option(&mut out, ServerOption::Bind, &self.bind);
        push_option(&mut out, ServerOption::DataDir, &self.data_dir);
        push_option_u64(&mut out, ServerOption::ServerId, self.server_id);
        push_option_usize(&mut out, ServerOption::Workers, self.workers);
        push_option_usize(&mut out, ServerOption::QueueCapacity, self.queue_capacity);
        push_option_usize(&mut out, ServerOption::PageSize, self.page_size);
        push_option_u64(&mut out, ServerOption::PrimaryServerId, self.primary_server_id);
        push_option(&mut out, ServerOption::RoutingTable, &self.routing_table);
        push_bool(&mut out, ServerOption::Daemonize, self.daemonize);
        out
    }
}

impl DatabaseSection {
    /// The arguments that the section stands for.
    pub open spec fn args(&self) -> Seq<Seq<char>> {
        Seq::<Seq<char>>::empty()
            + option_args(ServerOption::Shards, number_setting(as_nat_u64(self.shards)))
            + option_args(ServerOption::Partitions, number_setting(as_nat_usize(self.partitions)))
    }

    fn to_args(&self) -> (r: Vec<String>)
        ensures
            views(r@) == self.args(),
    {
        let mut out: Vec<String> = Vec::new();
        assert(views(out@) =~= Seq::<Seq<char>>::empty());
        push_option_u64(&mut out, ServerOption::Shards, self.shards);
        push_option_usize(&mut out, ServerOption::Partitions, self.partitions);
        out
    }
}

impl QuerySection {
    /// The arguments that the section stands for.
    pub open spec fn args(&self) -> Seq<Seq<char>> {
        Seq::<Seq<char>>::empty()
            + option_args(ServerOption::ReadPreference, text_setting(self.read_preference))
            + peer_args(ServerOption::QueryPeer, config_peers(self.peers@))
    }

    fn to_args(&self) -> (r: Vec<String>)
        ensures
            views(r@) == self.args(),
    {
        let mut out: Vec<String> = Vec::new();
        assert(views(out@) =~= Seq::<Seq<char>>::empty());
        push_option(&mut out, ServerOption::ReadPreference, &self.read_preference);
        push_peers(&mut out, ServerOption::QueryPeer, &self.peers);
        out
    }
}

impl GossipSection {
    /// The arguments that the section stands for.
    pub open spec fn args(&self) -> Seq<Seq<char>> {
        Seq::<Seq<char>>::empty()
            + option_args(ServerOption::GossipAdvertiseQuery, text_setting(self.advertise_query))
            + option_args(ServerOption::GossipAdvertiseReplication, text_setting(self.advertise_replication))
            + option_args(ServerOption::GossipIntervalMs, number_setting(as_nat_u64(self.interval_ms)))
            + option_args(ServerOption::GossipTtlMs, number_setting(as_nat_u64(self.ttl_ms)))
            + option_args(ServerOption::GossipFanout, number_setting(as_nat_usize(self.fanout)))
            + option_args(ServerOption::GossipAuthToken, text_setting(self.auth_token))
           
                + option_args(ServerOption::GossipAutoNegotiateReplication, flag_setting(self.auto_negotiate_replication == Some(true)))
            + peer_args(ServerOption::GossipSeedPeer, config_peers(self.seed_peers@))
    }

    fn to_args(&self) -> (r: Vec<String>)
        ensures
            views(r@) == self.args(),
    {
        let mut out: Vec<String> = Vec::new();
        assert(views(out@) =~= Seq::<Seq<char>>::empty());
        push_option(&mut out, ServerOption::GossipAdvertiseQuery, &self.advertise_query);
        push_option(&mut out, ServerOption::GossipAdvertiseReplication, &self.advertise_replication);
        push_option_u64(&mut out, ServerOption::GossipIntervalMs, self.interval_ms);
        push_option_u64(&mut out, ServerOption::GossipTtlMs, self.ttl_ms);
        push_option_usize(&mut out, ServerOption::GossipFanout, self.fanout);
        push_option(&mut out, ServerOption::GossipAuthToken, &self.auth_token);
        push_bool(&mut out, ServerOption::GossipAutoNegotiateReplication, self.auto_negotiate_replication);
        push_peers(&mut out, ServerOption::GossipSeedPeer, &self.seed_peers);
        out
    }
}

impl ReplicationSection {
    /// The arguments that the section stands for.
    pub open spec fn args(&self) -> Seq<Seq<char>> {
        Seq::<Seq<char>>::empty()
            + option_args(ServerOption::ReplicationBind, text_setting(self.bind))
            + option_args(ServerOption::ReplicationTransport, text_setting(self.transport))
            + option_args(ServerOption::ReplicationAck, text_setting(self.ack))
           
                + option_args(ServerOption::ReplicationConnectTimeoutMs, number_setting(as_nat_u64(self.connect_timeout_ms)))
            + option_args(ServerOption::ReplicationRetryAttempts, number_setting(as_nat_usize(self.retry_attempts)))
            + option_args(ServerOption::ReplicationRetryBackoffMs, number_setting(as_nat_u64(self.retry_backoff_ms)))
           
                + option_args(ServerOption::ReplicationMaxInFlightBatches, number_setting(as_nat_usize(self.max_in_flight_batches)))
            + peer_args(ServerOption::ReplicaPeer, config_peers(self.replica_peers@))
            + role_args(self.peers@)
            + option_args(ServerOption::CatchUpOnStartup, flag_setting(self.catch_up_on_startup == Some(true)))
            + option_args(ServerOption::CatchUpIntervalMs, number_setting(as_nat_u64(self.catch_up_interval_ms)))
            + option_args(ServerOption::CatchUpBatchSize, number_setting(as_nat_usize(self.catch_up_batch_size)))
    }

    fn to_args(&self) -> (r: Vec<String>)
        ensures
            views(r@) == self.args(),
    {
        let mut out: Vec<String> = Vec::new();
        assert(views(out@) =~= Seq::<Seq<char>>::empty());
        push_option(&mut out, ServerOption::ReplicationBind, &self.bind);
        push_option(&mut out, ServerOption::ReplicationTransport, &self.transport);
        push_option(&mut out, ServerOption::ReplicationAck, &self.ack);
        push_option_u64(&mut out, ServerOption::ReplicationConnectTimeoutMs, self.connect_timeout_ms);
        push_option_usize(&mut out, ServerOption::ReplicationRetryAttempts, self.retry_attempts);
        push_option_u64(&mut out, ServerOption::ReplicationRetryBackoffMs, self.retry_backoff_ms);
        push_option_usize(&mut out, ServerOption::ReplicationMaxInFlightBatches, self.max_in_flight_batches);
        push_peers(&mut out, ServerOption::ReplicaPeer, &self.replica_peers);
        push_peers_by_role(&mut out, &self.peers);
        push_bool(&mut out, ServerOption::CatchUpOnStartup, self.catch_up_on_startup);
        push_option_u64(&mut out, ServerOption::CatchUpIntervalMs, self.catch_up_interval_ms);
        push_option_usize(&mut out, ServerOption::CatchUpBatchSize, self.catch_up_batch_size);
        out
    }
}

impl WebSection {
    /// The arguments that the section stands for.
    pub open spec fn args(&self) -> Seq<Seq<char>> {
        Seq::<Seq<char>>::empty()
            + option_args(ServerOption::WebBind, text_setting(self.bind))
            + option_args(ServerOption::WebAuthToken, text_setting(self.auth_token))
            + option_args(ServerOption::SlowQueryThresholdMs, number_setting(as_nat_u64(self.slow_query_threshold_ms)))
    }

    fn to_args(&self) -> (r: Vec<String>)
        ensures
            views(r@) == self.args(),
    {
        let mut out: Vec<String> = Vec::new();
        assert(views(out@) =~= Seq::<Seq<char>>::empty());
        push_option(&mut out, ServerOption::WebBind, &self.bind);
        push_option(&mut out, ServerOption::WebAuthToken, &self.auth_token);
        push_option_u64(&mut out, ServerOption::SlowQueryThresholdMs, self.slow_query_threshold_ms);
        out
    }
}

impl MaintenanceSection {
    /// The arguments that the section stands for.
    pub open spec fn args(&self) -> Seq<Seq<char>> {
        Seq::<Seq<char>>::empty()
           
                + option_args(ServerOption::SyncIndexCatalogOnStartup, flag_setting(self.sync_index_catalog_on_startup == Some(true)))
           
                + option_args(ServerOption::SyncIndexCatalogIntervalMs, number_setting(as_nat_u64(self.sync_index_catalog_interval_ms)))
           
                + option_args(ServerOption::RecoverTransactionsOnStartup, flag_setting(self.recover_transactions_on_startup == Some(true)))
           
                + option_args(ServerOption::RecoverTransactionsIntervalMs, number_setting(as_nat_u64(self.recover_transactions_interval_ms)))
    }

    fn to_args(&self) -> (r: Vec<String>)
        ensures
            views(r@) == self.args(),
    {
        let mut out: Vec<String> = Vec::new();
        assert(views(out@) =~= Seq::<Seq<char>>::empty());
        push_bool(&mut out, ServerOption::SyncIndexCatalogOnStartup, self.sync_index_catalog_on_startup);
        push_option_u64(&mut out, ServerOption::SyncIndexCatalogIntervalMs, self.sync_index_catalog_interval_ms);
        push_bool(&mut out, ServerOption::RecoverTransactionsOnStartup, self.recover_transactions_on_startup);
        push_option_u64(&mut out, ServerOption::RecoverTransactionsIntervalMs, self.recover_transactions_interval_ms);
        out
    }
}

impl ProductionSection {
    /// The arguments that the section stands for.
    pub open spec fn args(&self) -> Seq<Seq<char>> {
        Seq::<Seq<char>>::empty()
            + option_args(ServerOption::TlsMode, text_setting(self.tls_mode))
            + option_args(ServerOption::ReplicationTlsMode, text_setting(self.replication_tls_mode))
            + option_args(ServerOption::WebTlsMode, text_setting(self.web_tls_mode))
            + option_args(ServerOption::NativeTlsCert, text_setting(self.native_tls_cert))
            + option_args(ServerOption::NativeTlsKey, text_setting(self.native_tls_key))
            + option_args(ServerOption::NativeTlsClientCa, text_setting(self.native_tls_client_ca))
           
                + option_args(ServerOption::NativeTlsRequireClientAuth, flag_setting(self.native_tls_require_client_auth == Some(true)))
            + option_args(ServerOption::WebTlsCert, text_setting(self.web_tls_cert))
            + option_args(ServerOption::WebTlsKey, text_setting(self.web_tls_key))
            + option_args(ServerOption::WebTlsClientCa, text_setting(self.web_tls_client_ca))
           
                + option_args(ServerOption::WebTlsRequireClientAuth, flag_setting(self.web_tls_require_client_auth == Some(true)))
            + option_args(ServerOption::ReplicationTlsCert, text_setting(self.replication_tls_cert))
            + option_args(ServerOption::ReplicationTlsKey, text_setting(self.replication_tls_key))
            + option_args(ServerOption::ReplicationTlsClientCa, text_setting(self.replication_tls_client_ca))
           
                + option_args(ServerOption::ReplicationTlsRequireClientAuth, flag_setting(self.replication_tls_require_client_auth == Some(true)))
            + option_args(ServerOption::ReplicationTlsCa, text_setting(self.replication_tls_ca))
            + option_args(ServerOption::ReplicationTlsServerName, text_setting(self.replication_tls_server_name))
            + option_args(ServerOption::ReplicationTlsClientCert, text_setting(self.replication_tls_client_cert))
            + option_args(ServerOption::ReplicationTlsClientKey, text_setting(self.replication_tls_client_key))
           
                + option_args(ServerOption::MinNativeProtocolVersion, number_setting(as_nat_u8(self.min_native_protocol_version)))
           
                + option_args(ServerOption::MaxNativeProtocolVersion, number_setting(as_nat_u8(self.max_native_protocol_version)))
           
                + option_args(ServerOption::BackupDrillMaxAgeHours, number_setting(as_nat_u64(self.backup_drill_max_age_hours)))
            + option_args(ServerOption::WalArchiveDir, text_setting(self.wal_archive_dir))
            + option_args(ServerOption::RestoreDrillManifest, text_setting(self.restore_drill_manifest))
            + option_args(ServerOption::AuditRetentionDays, number_setting(as_nat_u64(self.audit_retention_days)))
            + option_args(ServerOption::SecretRotationDays, number_setting(as_nat_u64(self.secret_rotation_days)))
           
                + option_args(ServerOption::TenantMaxConcurrentQueries, number_setting(as_nat_usize(self.tenant_max_concurrent_queries)))
            + option_args(ServerOption::TenantMaxResultRows, number_setting(as_nat_usize(self.tenant_max_result_rows)))
            + option_args(ServerOption::DataFormatVersion, number_setting(as_nat_u32(self.data_format_version)))
            + option_args(ServerOption::UpgradeManifest, text_setting(self.upgrade_manifest))
           
                + option_args(ServerOption::RaftLeaseClockDriftBoundMs, number_setting(as_nat_u64(self.raft_lease_clock_drift_bound_ms)))
           
                + option_args(ServerOption::RaftLeaseMessageDelayBoundMs, number_setting(as_nat_u64(self.raft_lease_message_delay_bound_ms)))
            + option_args(ServerOption::ObservabilityAlerts, text_setting(self.observability_alerts))
            + option_args(ServerOption::RepairCheckOnStartup, flag_setting(self.repair_check_on_startup == Some(true)))
            + option_args(ServerOption::QueryRegressionCorpus, text_setting(self.query_regression_corpus))
            + option_args(ServerOption::ChaosGateRequired, flag_setting(self.chaos_gate_required == Some(true)))
            + option_args(ServerOption::Runbook, text_setting(self.runbook))
            + option_args(ServerOption::SystemdUnit, text_setting(self.systemd_unit))
            + option_args(ServerOption::Logrotate, text_setting(self.logrotate))
    }

    fn to_args(&self) -> (r: Vec<String>)
        ensures
            views(r@) == self.args(),
    {
        let mut out: Vec<String> = Vec::new();
        assert(views(out@) =~= Seq::<Seq<char>>::empty());
        push_option(&mut out, ServerOption::TlsMode, &self.tls_mode);
        push_option(&mut out, ServerOption::ReplicationTlsMode, &self.replication_tls_mode);
        push_option(&mut out, ServerOption::WebTlsMode, &self.web_tls_mode);
        push_option(&mut out, ServerOption::NativeTlsCert, &self.native_tls_cert);
        push_option(&mut out, ServerOption::NativeTlsKey, &self.native_tls_key);
        push_option(&mut out, ServerOption::NativeTlsClientCa, &self.native_tls_client_ca);
        push_bool(&mut out, ServerOption::NativeTlsRequireClientAuth, self.native_tls_require_client_auth);
        push_option(&mut out, ServerOption::WebTlsCert, &self.web_tls_cert);
        push_option(&mut out, ServerOption::WebTlsKey, &self.web_tls_key);
        push_option(&mut out, ServerOption::WebTlsClientCa, &self.web_tls_client_ca);
        push_bool(&mut out, ServerOption::WebTlsRequireClientAuth, self.web_tls_require_client_auth);
        push_option(&mut out, ServerOption::ReplicationTlsCert, &self.replication_tls_cert);
        push_option(&mut out, ServerOption::ReplicationTlsKey, &self.replication_tls_key);
        push_option(&mut out, ServerOption::ReplicationTlsClientCa, &self.replication_tls_client_ca);
        push_bool(&mut out, ServerOption::ReplicationTlsRequireClientAuth, self.replication_tls_require_client_auth);
        push_option(&mut out, ServerOption::ReplicationTlsCa, &self.replication_tls_ca);
        push_option(&mut out, ServerOption::ReplicationTlsServerName, &self.replication_tls_server_name);
        push_option(&mut out, ServerOption::ReplicationTlsClientCert, &self.replication_tls_client_cert);
        push_option(&mut out, ServerOption::ReplicationTlsClientKey, &self.replication_tls_client_key);
        push_option_u8(&mut out, ServerOption::MinNativeProtocolVersion, self.min_native_protocol_version);
        push_option_u8(&mut out, ServerOption::MaxNativeProtocolVersion, self.max_native_protocol_version);
        push_option_u64(&mut out, ServerOption::BackupDrillMaxAgeHours, self.backup_drill_max_age_hours);
        push_option(&mut out, ServerOption::WalArchiveDir, &self.wal_archive_dir);
        push_option(&mut out, ServerOption::RestoreDrillManifest, &self.restore_drill_manifest);
        push_option_u64(&mut out, ServerOption::AuditRetentionDays, self.audit_retention_days);
        push_option_u64(&mut out, ServerOption::SecretRotationDays, self.secret_rotation_days);
        push_option_usize(&mut out, ServerOption::TenantMaxConcurrentQueries, self.tenant_max_concurrent_queries);
        push_option_usize(&mut out, ServerOption::TenantMaxResultRows, self.tenant_max_result_rows);
        push_option_u32(&mut out, ServerOption::DataFormatVersion, self.data_format_version);
        push_option(&mut out, ServerOption::UpgradeManifest, &self.upgrade_manifest);
        push_option_u64(&mut out, ServerOption::RaftLeaseClockDriftBoundMs, self.raft_lease_clock_drift_bound_ms);
        push_option_u64(&mut out, ServerOption::RaftLeaseMessageDelayBoundMs, self.raft_lease_message_delay_bound_ms);
        push_option(&mut out, ServerOption::ObservabilityAlerts, &self.observability_alerts);
        push_bool(&mut out, ServerOption::RepairCheckOnStartup, self.repair_check_on_startup);
        push_option(&mut out, ServerOption::QueryRegressionCorpus, &self.query_regression_corpus);
        push_bool(&mut out, ServerOption::ChaosGateRequired, self.chaos_gate_required);
        push_option(&mut out, ServerOption::Runbook, &self.runbook);
        push_option(&mut out, ServerOption::SystemdUnit, &self.systemd_unit);
        push_option(&mut out, ServerOption::Logrotate, &self.logrotate);
        out
    }
}

impl ServerConfigFile {
    /// The arguments that the file stands for.
    pub open spec fn args(&self) -> Seq<Seq<char>> {
        self.server.args() + self.database.args() + self.query.args() + self.gossip.args()
            + self.replication.args() + self.web.args() + self.maintenance.args()
            + self.production.args()
    }

    /// Turns the file into arguments.
    pub fn into_args(&self) -> (r: Vec<String>)
        ensures
            views(r@) == self.args(),
    {
        let mut out = self.server.to_args();
        append_args(&mut out, &self.database.to_args());
        append_args(&mut out, &self.query.to_args());
        append_args(&mut out, &self.gossip.to_args());
        append_args(&mut out, &self.replication.to_args());
        append_args(&mut out, &self.web.to_args());
        append_args(&mut out, &self.maintenance.to_args());
        append_args(&mut out, &self.production.to_args());
        out
    }
}

} // verus!
