//! The command line that starts the `winws.exe` engine with the default
//! strategy, and the elevated PowerShell call that runs it.
use vstd::prelude::*;

use crate::lists::{
    all_list_kinds, content_in, law_all_list_kinds_once, law_list_file_names_distinct, lemma_list_file_name_plain,
    list_file_name, list_file_path, list_kinds,
    ListKind, ListsView, ZapretLists,
};
use crate::paths::{bin_dir, extends_path, is_joinable_base, join_path, lemma_extends_paths_distinct};
use crate::text::{
    is_blank, is_blank_text, join_texts, push_text, seq_join, texts, unicode_white_space,
};

verus! {

/// The files that the engine's command line names: the seven list files
/// written for this run, the engine itself and its three payload files.
#[derive(Debug)]
pub struct WinwsPaths {
    pub list_general: String,
    pub list_general_user: String,
    pub list_exclude: String,
    pub list_exclude_user: String,
    pub ipset_all: String,
    pub ipset_exclude: String,
    pub ipset_exclude_user: String,
    pub winws: String,
    pub quic_google: String,
    pub tls_google: String,
    pub tls_4pda: String,
}

/// The path written for one list.
pub open spec fn list_path_of(p: WinwsPaths, kind: ListKind) -> Seq<char> {
    match kind {
        ListKind::ListGeneral => p.list_general@,
        ListKind::ListGeneralUser => p.list_general_user@,
        ListKind::ListExclude => p.list_exclude@,
        ListKind::ListExcludeUser => p.list_exclude_user@,
        ListKind::IpsetAll => p.ipset_all@,
        ListKind::IpsetExclude => p.ipset_exclude@,
        ListKind::IpsetExcludeUser => p.ipset_exclude_user@,
    }
}

/// The engine and its payloads lie in `bin`; the list files in `lists`.
pub open spec fn paths_under(p: WinwsPaths, bin: Seq<char>, lists: Seq<char>) -> bool {
    &&& is_joinable_base(bin) ==> {
        &&& extends_path(p.winws@, bin, "winws.exe"@)
        &&& extends_path(p.quic_google@, bin, "quic_initial_www_google_com.bin"@)
        &&& extends_path(p.tls_google@, bin, "tls_clienthello_www_google_com.bin"@)
        &&& extends_path(p.tls_4pda@, bin, "tls_clienthello_4pda_to.bin"@)
    }
    &&& is_joinable_base(lists) ==> forall|k: ListKind|
        extends_path(#[trigger] list_path_of(p, k), lists, list_file_name(k))
}

impl WinwsPaths {
    /// The path written for one list.
    pub fn list_path(&self, kind: ListKind) -> (path: &str)
        ensures
            path@ == list_path_of(*self, kind),
    {
        match kind {
            ListKind::ListGeneral => self.list_general.as_str(),
            ListKind::ListGeneralUser => self.list_general_user.as_str(),
            ListKind::ListExclude => self.list_exclude.as_str(),
            ListKind::ListExcludeUser => self.list_exclude_user.as_str(),
            ListKind::IpsetAll => self.ipset_all.as_str(),
            ListKind::IpsetExclude => self.ipset_exclude.as_str(),
            ListKind::IpsetExcludeUser => self.ipset_exclude_user.as_str(),
        }
    }
}

fn winws_exe_path(bin: &str) -> (path: String)
    ensures
        is_joinable_base(bin@) ==> extends_path(path@, bin@, "winws.exe"@),
{
    proof {
        reveal_strlit("winws.exe");
    }
    join_path(bin, "winws.exe")
}

fn quic_google_path(bin: &str) -> (path: String)
    ensures
        is_joinable_base(bin@) ==> extends_path(
            path@,
            bin@,
            "quic_initial_www_google_com.bin"@,
        ),
{
    proof {
        reveal_strlit("quic_initial_www_google_com.bin");
    }
    join_path(bin, "quic_initial_www_google_com.bin")
}

fn tls_google_path(bin: &str) -> (path: String)
    ensures
        is_joinable_base(bin@) ==> extends_path(
            path@,
            bin@,
            "tls_clienthello_www_google_com.bin"@,
        ),
{
    proof {
        reveal_strlit("tls_clienthello_www_google_com.bin");
    }
    join_path(bin, "tls_clienthello_www_google_com.bin")
}

fn tls_4pda_path(bin: &str) -> (path: String)
    ensures
        is_joinable_base(bin@) ==> extends_path(path@, bin@, "tls_clienthello_4pda_to.bin"@),
{
    proof {
        reveal_strlit("tls_clienthello_4pda_to.bin");
    }
    join_path(bin, "tls_clienthello_4pda_to.bin")
}

/// The engine's files in `bin` and the list files of this run in
/// `temp_lists_dir`.
pub fn winws_paths(bin: &str, temp_lists_dir: &str) -> (p: WinwsPaths)
    ensures
        paths_under(p, bin@, temp_lists_dir@),
{
    let p = WinwsPaths {
        list_general: list_file_path(temp_lists_dir, ListKind::ListGeneral),
        list_general_user: list_file_path(temp_lists_dir, ListKind::ListGeneralUser),
        list_exclude: list_file_path(temp_lists_dir, ListKind::ListExclude),
        list_exclude_user: list_file_path(temp_lists_dir, ListKind::ListExcludeUser),
        ipset_all: list_file_path(temp_lists_dir, ListKind::IpsetAll),
        ipset_exclude: list_file_path(temp_lists_dir, ListKind::IpsetExclude),
        ipset_exclude_user: list_file_path(temp_lists_dir, ListKind::IpsetExcludeUser),
        winws: winws_exe_path(bin),
        quic_google: quic_google_path(bin),
        tls_google: tls_google_path(bin),
        tls_4pda: tls_4pda_path(bin),
    };
    assert forall|k: ListKind| is_joinable_base(temp_lists_dir@) implies extends_path(
        #[trigger] list_path_of(p, k),
        temp_lists_dir@,
        list_file_name(k),
    ) by {
        match k {
            ListKind::ListGeneral => {},
            ListKind::ListGeneralUser => {},
            ListKind::ListExclude => {},
            ListKind::ListExcludeUser => {},
            ListKind::IpsetAll => {},
            ListKind::IpsetExclude => {},
            ListKind::IpsetExcludeUser => {},
        }
    }
    p
}

/// The TCP ports the engine intercepts: the fixed ports, then the game
/// filter if it is not blank.
pub open spec fn tcp_port_list(game_tcp: Seq<char>) -> Seq<char> {
    if is_blank(game_tcp) {
        "80,443,2053,2083,2087,2096,8443"@
    } else {
        "80,443,2053,2083,2087,2096,8443"@ + ","@ + game_tcp
    }
}

/// The UDP ports the engine intercepts: the fixed ports, then the game
/// filter if it is not blank.
pub open spec fn udp_port_list(game_udp: Seq<char>) -> Seq<char> {
    if is_blank(game_udp) {
        "443,19294-19344,50000-50100"@
    } else {
        "443,19294-19344,50000-50100"@ + ","@ + game_udp
    }
}

/// The options that tell the engine which ports to intercept.
pub open spec fn port_options(game_tcp: Seq<char>, game_udp: Seq<char>) -> Seq<Seq<char>> {
    seq!["--wf-tcp="@ + tcp_port_list(game_tcp), "--wf-udp="@ + udp_port_list(game_udp)]
}

/// QUIC to the listed hosts: fake packets.
pub open spec fn quic_hostlist_profile(p: WinwsPaths) -> Seq<Seq<char>> {
    seq![
        "--filter-udp=443"@,
        "--hostlist="@ + p.list_general@,
        "--hostlist="@ + p.list_general_user@,
        "--hostlist-exclude="@ + p.list_exclude@,
        "--hostlist-exclude="@ + p.list_exclude_user@,
        "--ipset-exclude="@ + p.ipset_exclude@,
        "--ipset-exclude="@ + p.ipset_exclude_user@,
        "--dpi-desync=fake"@,
        "--dpi-desync-repeats=6"@,
        "--dpi-desync-fake-quic="@ + p.quic_google@,
    ]
}

/// Discord voice over UDP: fake packets.
pub open spec fn discord_voice_profile() -> Seq<Seq<char>> {
    seq![
        "--filter-udp=19294-19344,50000-50100"@,
        "--filter-l7=discord,stun"@,
        "--dpi-desync=fake"@,
        "--dpi-desync-repeats=6"@,
    ]
}

/// Discord media over TCP: split packets.
pub open spec fn discord_media_profile(p: WinwsPaths) -> Seq<Seq<char>> {
    seq![
        "--filter-tcp=2053,2083,2087,2096,8443"@,
        "--hostlist-domains=discord.media"@,
        "--dpi-desync=multisplit"@,
        "--dpi-desync-split-seqovl=681"@,
        "--dpi-desync-split-pos=1"@,
        "--dpi-desync-split-seqovl-pattern="@ + p.tls_google@,
    ]
}

/// TLS to the hosts of the address list: split packets.
pub open spec fn tls_ipset_hosts_profile(p: WinwsPaths) -> Seq<Seq<char>> {
    seq![
        "--filter-tcp=443"@,
        "--hostlist="@ + p.ipset_all@,
        "--ip-id=zero"@,
        "--dpi-desync=multisplit"@,
        "--dpi-desync-split-seqovl=681"@,
        "--dpi-desync-split-pos=1"@,
        "--dpi-desync-split-seqovl-pattern="@ + p.tls_google@,
    ]
}

/// HTTP and TLS to the listed hosts: split packets.
pub open spec fn tcp_hostlist_profile(p: WinwsPaths) -> Seq<Seq<char>> {
    seq![
        "--filter-tcp=80,443"@,
        "--hostlist="@ + p.list_general@,
        "--hostlist="@ + p.list_general_user@,
        "--hostlist-exclude="@ + p.list_exclude@,
        "--hostlist-exclude="@ + p.list_exclude_user@,
        "--ipset-exclude="@ + p.ipset_exclude@,
        "--ipset-exclude="@ + p.ipset_exclude_user@,
        "--dpi-desync=multisplit"@,
        "--dpi-desync-split-seqovl=568"@,
        "--dpi-desync-split-pos=1"@,
        "--dpi-desync-split-seqovl-pattern="@ + p.tls_4pda@,
    ]
}

/// QUIC to the listed addresses: fake packets.
pub open spec fn quic_ipset_profile(p: WinwsPaths) -> Seq<Seq<char>> {
    seq![
        "--filter-udp=443"@,
        "--ipset="@ + p.ipset_all@,
        "--hostlist-exclude="@ + p.list_exclude@,
        "--hostlist-exclude="@ + p.list_exclude_user@,
        "--ipset-exclude="@ + p.ipset_exclude@,
        "--ipset-exclude="@ + p.ipset_exclude_user@,
        "--dpi-desync=fake"@,
        "--dpi-desync-repeats=6"@,
        "--dpi-desync-fake-quic="@ + p.quic_google@,
    ]
}

/// HTTP and TLS to the listed addresses: split packets.
pub open spec fn tcp_ipset_profile(p: WinwsPaths) -> Seq<Seq<char>> {
    seq![
        "--filter-tcp=80,443,8443"@,
        "--ipset="@ + p.ipset_all@,
        "--hostlist-exclude="@ + p.list_exclude@,
        "--hostlist-exclude="@ + p.list_exclude_user@,
        "--ipset-exclude="@ + p.ipset_exclude@,
        "--ipset-exclude="@ + p.ipset_exclude_user@,
        "--dpi-desync=multisplit"@,
        "--dpi-desync-split-seqovl=568"@,
        "--dpi-desync-split-pos=1"@,
        "--dpi-desync-split-seqovl-pattern="@ + p.tls_4pda@,
    ]
}

/// Game traffic over TCP to the listed addresses: split packets.
pub open spec fn game_tcp_profile(p: WinwsPaths, game_tcp: Seq<char>) -> Seq<Seq<char>> {
    seq![
        "--filter-tcp="@ + game_tcp,
        "--ipset="@ + p.ipset_all@,
        "--ipset-exclude="@ + p.ipset_exclude@,
        "--ipset-exclude="@ + p.ipset_exclude_user@,
        "--dpi-desync=multisplit"@,
        "--dpi-desync-any-protocol=1"@,
        "--dpi-desync-cutoff=n3"@,
        "--dpi-desync-split-seqovl=568"@,
        "--dpi-desync-split-pos=1"@,
        "--dpi-desync-split-seqovl-pattern="@ + p.tls_4pda@,
    ]
}

/// Game traffic over UDP to the listed addresses: fake packets.
pub open spec fn game_udp_profile(p: WinwsPaths, game_udp: Seq<char>) -> Seq<Seq<char>> {
    seq![
        "--filter-udp="@ + game_udp,
        "--ipset="@ + p.ipset_all@,
        "--ipset-exclude="@ + p.ipset_exclude@,
        "--ipset-exclude="@ + p.ipset_exclude_user@,
        "--dpi-desync=fake"@,
        "--dpi-desync-repeats=12"@,
        "--dpi-desync-any-protocol=1"@,
        "--dpi-desync-fake-unknown-udp="@ + p.quic_google@,
        "--dpi-desync-cutoff=n2"@,
    ]
}

/// The separator between two profiles.
pub open spec fn next_profile() -> Seq<Seq<char>> {
    seq!["--new"@]
}

/// The engine's whole command line for the default strategy: the port
/// options, then the nine profiles, `--new` between each two.
pub open spec fn winws_arg_list(p: WinwsPaths, game_tcp: Seq<char>, game_udp: Seq<char>) -> Seq<
    Seq<char>,
> {
    port_options(game_tcp, game_udp) + quic_hostlist_profile(p) + next_profile()
        + discord_voice_profile() + next_profile() + discord_media_profile(p) + next_profile()
        + tls_ipset_hosts_profile(p) + next_profile() + tcp_hostlist_profile(p) + next_profile()
        + quic_ipset_profile(p) + next_profile() + tcp_ipset_profile(p) + next_profile()
        + game_tcp_profile(p, game_tcp) + next_profile() + game_udp_profile(p, game_udp)
}

/// Appends an argument made of an option and its value.
fn push_option(args: &mut Vec<String>, option: &str, value: &str)
    ensures
        texts(final(args)@) == texts(old(args)@).push(option@ + value@),
{
    let mut arg = String::from_str(option);
    arg.append(value);
    args.push(arg);
    assert(texts(args@) =~= texts(old(args)@).push(option@ + value@));
}

/// The TCP port list for a game filter.
pub fn tcp_ports(game_tcp: &str) -> (ports: String)
    ensures
        ports@ == tcp_port_list(game_tcp@),
        is_blank(game_tcp@) ==> ports@ == "80,443,2053,2083,2087,2096,8443"@,
        !is_blank(game_tcp@) ==> ports@ == "80,443,2053,2083,2087,2096,8443"@ + ","@ + game_tcp@,
{
    let mut ports = String::from_str("80,443,2053,2083,2087,2096,8443");
    if !is_blank_text(game_tcp) {
        ports.append(",");
        ports.append(game_tcp);
    }
    ports
}

/// The UDP port list for a game filter.
pub fn udp_ports(game_udp: &str) -> (ports: String)
    ensures
        ports@ == udp_port_list(game_udp@),
        is_blank(game_udp@) ==> ports@ == "443,19294-19344,50000-50100"@,
        !is_blank(game_udp@) ==> ports@ == "443,19294-19344,50000-50100"@ + ","@ + game_udp@,
{
    let mut ports = String::from_str("443,19294-19344,50000-50100");
    if !is_blank_text(game_udp) {
        ports.append(",");
        ports.append(game_udp);
    }
    ports
}

fn push_quic_hostlist_profile(args: &mut Vec<String>, p: &WinwsPaths)
    ensures
        texts(final(args)@) == texts(old(args)@) + quic_hostlist_profile(*p),
{
    push_text(args, "--filter-udp=443");
    push_option(args, "--hostlist=", p.list_general.as_str());
    push_option(args, "--hostlist=", p.list_general_user.as_str());
    push_option(args, "--hostlist-exclude=", p.list_exclude.as_str());
    push_option(args, "--hostlist-exclude=", p.list_exclude_user.as_str());
    push_option(args, "--ipset-exclude=", p.ipset_exclude.as_str());
    push_option(args, "--ipset-exclude=", p.ipset_exclude_user.as_str());
    push_text(args, "--dpi-desync=fake");
    push_text(args, "--dpi-desync-repeats=6");
    push_option(args, "--dpi-desync-fake-quic=", p.quic_google.as_str());
    assert(texts(args@) =~= texts(old(args)@) + quic_hostlist_profile(*p));
}

fn push_discord_voice_profile(args: &mut Vec<String>)
    ensures
        texts(final(args)@) == texts(old(args)@) + discord_voice_profile(),
{
    push_text(args, "--filter-udp=19294-19344,50000-50100");
    push_text(args, "--filter-l7=discord,stun");
    push_text(args, "--dpi-desync=fake");
    push_text(args, "--dpi-desync-repeats=6");
    assert(texts(args@) =~= texts(old(args)@) + discord_voice_profile());
}

fn push_discord_media_profile(args: &mut Vec<String>, p: &WinwsPaths)
    ensures
        texts(final(args)@) == texts(old(args)@) + discord_media_profile(*p),
{
    push_text(args, "--filter-tcp=2053,2083,2087,2096,8443");
    push_text(args, "--hostlist-domains=discord.media");
    push_text(args, "--dpi-desync=multisplit");
    push_text(args, "--dpi-desync-split-seqovl=681");
    push_text(args, "--dpi-desync-split-pos=1");
    push_option(args, "--dpi-desync-split-seqovl-pattern=", p.tls_google.as_str());
    assert(texts(args@) =~= texts(old(args)@) + discord_media_profile(*p));
}

fn push_tls_ipset_hosts_profile(args: &mut Vec<String>, p: &WinwsPaths)
    ensures
        texts(final(args)@) == texts(old(args)@) + tls_ipset_hosts_profile(*p),
{
    push_text(args, "--filter-tcp=443");
    push_option(args, "--hostlist=", p.ipset_all.as_str());
    push_text(args, "--ip-id=zero");
    push_text(args, "--dpi-desync=multisplit");
    push_text(args, "--dpi-desync-split-seqovl=681");
    push_text(args, "--dpi-desync-split-pos=1");
    push_option(args, "--dpi-desync-split-seqovl-pattern=", p.tls_google.as_str());
    assert(texts(args@) =~= texts(old(args)@) + tls_ipset_hosts_profile(*p));
}

fn push_tcp_hostlist_profile(args: &mut Vec<String>, p: &WinwsPaths)
    ensures
        texts(final(args)@) == texts(old(args)@) + tcp_hostlist_profile(*p),
{
    push_text(args, "--filter-tcp=80,443");
    push_option(args, "--hostlist=", p.list_general.as_str());
    push_option(args, "--hostlist=", p.list_general_user.as_str());
    push_option(args, "--hostlist-exclude=", p.list_exclude.as_str());
    push_option(args, "--hostlist-exclude=", p.list_exclude_user.as_str());
    push_option(args, "--ipset-exclude=", p.ipset_exclude.as_str());
    push_option(args, "--ipset-exclude=", p.ipset_exclude_user.as_str());
    push_text(args, "--dpi-desync=multisplit");
    push_text(args, "--dpi-desync-split-seqovl=568");
    push_text(args, "--dpi-desync-split-pos=1");
    push_option(args, "--dpi-desync-split-seqovl-pattern=", p.tls_4pda.as_str());
    assert(texts(args@) =~= texts(old(args)@) + tcp_hostlist_profile(*p));
}

fn push_quic_ipset_profile(args: &mut Vec<String>, p: &WinwsPaths)
    ensures
        texts(final(args)@) == texts(old(args)@) + quic_ipset_profile(*p),
{
    push_text(args, "--filter-udp=443");
    push_option(args, "--ipset=", p.ipset_all.as_str());
    push_option(args, "--hostlist-exclude=", p.list_exclude.as_str());
    push_option(args, "--hostlist-exclude=", p.list_exclude_user.as_str());
    push_option(args, "--ipset-exclude=", p.ipset_exclude.as_str());
    push_option(args, "--ipset-exclude=", p.ipset_exclude_user.as_str());
    push_text(args, "--dpi-desync=fake");
    push_text(args, "--dpi-desync-repeats=6");
    push_option(args, "--dpi-desync-fake-quic=", p.quic_google.as_str());
    assert(texts(args@) =~= texts(old(args)@) + quic_ipset_profile(*p));
}

fn push_tcp_ipset_profile(args: &mut Vec<String>, p: &WinwsPaths)
    ensures
        texts(final(args)@) == texts(old(args)@) + tcp_ipset_profile(*p),
{
    push_text(args, "--filter-tcp=80,443,8443");
    push_option(args, "--ipset=", p.ipset_all.as_str());
    push_option(args, "--hostlist-exclude=", p.list_exclude.as_str());
    push_option(args, "--hostlist-exclude=", p.list_exclude_user.as_str());
    push_option(args, "--ipset-exclude=", p.ipset_exclude.as_str());
    push_option(args, "--ipset-exclude=", p.ipset_exclude_user.as_str());
    push_text(args, "--dpi-desync=multisplit");
    push_text(args, "--dpi-desync-split-seqovl=568");
    push_text(args, "--dpi-desync-split-pos=1");
    push_option(args, "--dpi-desync-split-seqovl-pattern=", p.tls_4pda.as_str());
    assert(texts(args@) =~= texts(old(args)@) + tcp_ipset_profile(*p));
}

fn push_game_tcp_profile(args: &mut Vec<String>, p: &WinwsPaths, game_tcp: &str)
    ensures
        texts(final(args)@) == texts(old(args)@) + game_tcp_profile(*p, game_tcp@),
{
    push_option(args, "--filter-tcp=", game_tcp);
    push_option(args, "--ipset=", p.ipset_all.as_str());
    push_option(args, "--ipset-exclude=", p.ipset_exclude.as_str());
    push_option(args, "--ipset-exclude=", p.ipset_exclude_user.as_str());
    push_text(args, "--dpi-desync=multisplit");
    push_text(args, "--dpi-desync-any-protocol=1");
    push_text(args, "--dpi-desync-cutoff=n3");
    push_text(args, "--dpi-desync-split-seqovl=568");
    push_text(args, "--dpi-desync-split-pos=1");
    push_option(args, "--dpi-desync-split-seqovl-pattern=", p.tls_4pda.as_str());
    assert(texts(args@) =~= texts(old(args)@) + game_tcp_profile(*p, game_tcp@));
}

fn push_game_udp_profile(args: &mut Vec<String>, p: &WinwsPaths, game_udp: &str)
    ensures
        texts(final(args)@) == texts(old(args)@) + game_udp_profile(*p, game_udp@),
{
    push_option(args, "--filter-udp=", game_udp);
    push_option(args, "--ipset=", p.ipset_all.as_str());
    push_option(args, "--ipset-exclude=", p.ipset_exclude.as_str());
    push_option(args, "--ipset-exclude=", p.ipset_exclude_user.as_str());
    push_text(args, "--dpi-desync=fake");
    push_text(args, "--dpi-desync-repeats=12");
    push_text(args, "--dpi-desync-any-protocol=1");
    push_option(args, "--dpi-desync-fake-unknown-udp=", p.quic_google.as_str());
    push_text(args, "--dpi-desync-cutoff=n2");
    assert(texts(args@) =~= texts(old(args)@) + game_udp_profile(*p, game_udp@));
}

/// The engine's command line for the default strategy, with the given game
/// filters (the empty text where there is none).
pub fn winws_args(p: &WinwsPaths, game_tcp: &str, game_udp: &str) -> (args: Vec<String>)
    ensures
        texts(args@) == winws_arg_list(*p, game_tcp@, game_udp@),
        args@.len() == 86,
        args@[0]@ == "--wf-tcp="@ + tcp_port_list(game_tcp@),
        args@[1]@ == "--wf-udp="@ + udp_port_list(game_udp@),
        args@[66]@ == "--filter-tcp="@ + game_tcp@,
        args@[77]@ == "--filter-udp="@ + game_udp@,
{
    let mut args: Vec<String> = Vec::new();
    let tcp = tcp_ports(game_tcp);
    let udp = udp_ports(game_udp);
    push_option(&mut args, "--wf-tcp=", tcp.as_str());
    push_option(&mut args, "--wf-udp=", udp.as_str());
    assert(texts(args@) =~= port_options(game_tcp@, game_udp@));
    push_quic_hostlist_profile(&mut args, p);
    push_text(&mut args, "--new");
    push_discord_voice_profile(&mut args);
    push_text(&mut args, "--new");
    push_discord_media_profile(&mut args, p);
    push_text(&mut args, "--new");
    push_tls_ipset_hosts_profile(&mut args, p);
    push_text(&mut args, "--new");
    push_tcp_hostlist_profile(&mut args, p);
    push_text(&mut args, "--new");
    push_quic_ipset_profile(&mut args, p);
    push_text(&mut args, "--new");
    push_tcp_ipset_profile(&mut args, p);
    push_text(&mut args, "--new");
    push_game_tcp_profile(&mut args, p, game_tcp);
    push_text(&mut args, "--new");
    push_game_udp_profile(&mut args, p, game_udp);
    assert(texts(args@) =~= winws_arg_list(*p, game_tcp@, game_udp@));
    proof {
        law_game_filters_reach_engine(*p, game_tcp@, game_udp@, game_tcp@, game_udp@);
        assert(texts(args@)[0] == args@[0]@);
        assert(texts(args@)[1] == args@[1]@);
        assert(texts(args@)[66] == args@[66]@);
        assert(texts(args@)[77] == args@[77]@);
    }
    args
}

/// The PowerShell command that starts the engine elevated, through the UAC
/// prompt, with its arguments joined by spaces.
pub open spec fn start_process_command(winws: Seq<char>, args: Seq<Seq<char>>) -> Seq<char> {
    "Start-Process -FilePath '"@ + winws + "' -ArgumentList '"@ + seq_join(args, " "@)
        + "' -Verb RunAs"@
}

/// Builds the PowerShell command that starts the engine elevated.
pub fn powershell_command(winws: &str, args: &Vec<String>) -> (command: String)
    ensures
        command@ == start_process_command(winws@, texts(args@)),
        command@ == "Start-Process -FilePath '"@ + winws@ + "' -ArgumentList '"@ + seq_join(
            texts(args@),
            " "@,
        ) + "' -Verb RunAs"@,
{
    let joined = join_texts(args, " ");
    let mut command = String::from_str("Start-Process -FilePath '");
    command.append(winws);
    command.append("' -ArgumentList '");
    command.append(joined.as_str());
    command.append("' -Verb RunAs");
    command
}

/// The arguments of `powershell` that run a command without a profile.
pub fn powershell_args(command: &str) -> (args: Vec<String>)
    ensures
        texts(args@) == seq!["-NoProfile"@, "-Command"@, command@],
{
    let mut args: Vec<String> = Vec::new();
    push_text(&mut args, "-NoProfile");
    push_text(&mut args, "-Command");
    push_text(&mut args, command);
    assert(texts(args@) =~= seq!["-NoProfile"@, "-Command"@, command@]);
    args
}

/// A game filter as given, or the empty text where none is.
pub open spec fn text_or_empty(o: Option<String>) -> Seq<char> {
    match o {
        Some(s) => s@,
        None => Seq::empty(),
    }
}

fn unwrap_text(o: Option<String>) -> (s: String)
    ensures
        s@ == text_or_empty(o),
{
    match o {
        Some(s) => s,
        None => String::new(),
    }
}

/// Everything needed to start the engine: its directory, the files it
/// names, its command line, and the PowerShell call that runs it.
pub struct WinwsLaunch {
    pub bin: String,
    pub paths: WinwsPaths,
    pub args: Vec<String>,
    pub command: String,
    pub shell_args: Vec<String>,
}

/// Plans a run of the default strategy from the engine's resource base, the
/// directory where this run's list files go, and the optional game filters.
pub fn plan_default_strategy(
    zapret_base: &str,
    temp_lists_dir: &str,
    game_filter_tcp: Option<String>,
    game_filter_udp: Option<String>,
) -> (launch: WinwsLaunch)
    ensures
        is_joinable_base(zapret_base@) ==> extends_path(launch.bin@, zapret_base@, "bin"@),
        is_joinable_base(zapret_base@) ==> is_joinable_base(launch.bin@),
        paths_under(launch.paths, launch.bin@, temp_lists_dir@),
        texts(launch.args@) == winws_arg_list(
            launch.paths,
            text_or_empty(game_filter_tcp),
            text_or_empty(game_filter_udp),
        ),
        launch.command@ == start_process_command(launch.paths.winws@, texts(launch.args@)),
        texts(launch.shell_args@) == seq!["-NoProfile"@, "-Command"@, launch.command@],
{
    let bin = bin_dir(zapret_base);
    let paths = winws_paths(bin.as_str(), temp_lists_dir);
    let game_tcp = unwrap_text(game_filter_tcp);
    let game_udp = unwrap_text(game_filter_udp);
    let args = winws_args(&paths, game_tcp.as_str(), game_udp.as_str());
    let command = powershell_command(paths.winws.as_str(), &args);
    let shell_args = powershell_args(command.as_str());
    WinwsLaunch { bin, paths, args, command, shell_args }
}

/// `s` ends with `t`.
pub open spec fn ends_with(s: Seq<char>, t: Seq<char>) -> bool {
    t.len() <= s.len() && s.subrange(s.len() - t.len(), s.len() as int) == t
}

/// Some argument ends with `path`: it is an option whose value is `path`.
pub open spec fn names_file(args: Seq<Seq<char>>, path: Seq<char>) -> bool {
    exists|i: int| 0 <= i < args.len() && ends_with(#[trigger] args[i], path)
}

proof fn lemma_option_ends_with_value(option: Seq<char>, value: Seq<char>)
    ensures
        ends_with(option + value, value),
{
    assert((option + value).subrange(option.len() as int, (option + value).len() as int) =~= value);
}

/// Law: every list written for a run reaches the engine: its path is the
/// value of some option on the engine's command line, whatever the game
/// filters.
pub proof fn law_every_list_reaches_engine(
    p: WinwsPaths,
    game_tcp: Seq<char>,
    game_udp: Seq<char>,
    kind: ListKind,
)
    ensures
        names_file(winws_arg_list(p, game_tcp, game_udp), list_path_of(p, kind)),
{
    let args = winws_arg_list(p, game_tcp, game_udp);
    assert(args.len() == 86);
    match kind {
        ListKind::ListGeneral => {
            assert(args[3] == "--hostlist="@ + list_path_of(p, kind));
            lemma_option_ends_with_value("--hostlist="@, list_path_of(p, kind));
            assert(ends_with(args[3], list_path_of(p, kind)));
        },
        ListKind::ListGeneralUser => {
            assert(args[4] == "--hostlist="@ + list_path_of(p, kind));
            lemma_option_ends_with_value("--hostlist="@, list_path_of(p, kind));
            assert(ends_with(args[4], list_path_of(p, kind)));
        },
        ListKind::ListExclude => {
            assert(args[5] == "--hostlist-exclude="@ + list_path_of(p, kind));
            lemma_option_ends_with_value("--hostlist-exclude="@, list_path_of(p, kind));
            assert(ends_with(args[5], list_path_of(p, kind)));
        },
        ListKind::ListExcludeUser => {
            assert(args[6] == "--hostlist-exclude="@ + list_path_of(p, kind));
            lemma_option_ends_with_value("--hostlist-exclude="@, list_path_of(p, kind));
            assert(ends_with(args[6], list_path_of(p, kind)));
        },
        ListKind::IpsetAll => {
            assert(args[26] == "--hostlist="@ + list_path_of(p, kind));
            lemma_option_ends_with_value("--hostlist="@, list_path_of(p, kind));
            assert(ends_with(args[26], list_path_of(p, kind)));
        },
        ListKind::IpsetExclude => {
            assert(args[7] == "--ipset-exclude="@ + list_path_of(p, kind));
            lemma_option_ends_with_value("--ipset-exclude="@, list_path_of(p, kind));
            assert(ends_with(args[7], list_path_of(p, kind)));
        },
        ListKind::IpsetExcludeUser => {
            assert(args[8] == "--ipset-exclude="@ + list_path_of(p, kind));
            lemma_option_ends_with_value("--ipset-exclude="@, list_path_of(p, kind));
            assert(ends_with(args[8], list_path_of(p, kind)));
        },
    }
}

/// Law: a game filter made only of spaces and tabs is dropped: the port
/// lists are the fixed ones, as when no filter is given.
pub proof fn law_space_game_filter_dropped(game: Seq<char>)
    requires
        forall|i: int| 0 <= i < game.len() ==> #[trigger] game[i] == ' ' || game[i] == '\t',
    ensures
        tcp_port_list(game) == tcp_port_list(Seq::empty()),
        udp_port_list(game) == udp_port_list(Seq::empty()),
{
    assert(is_blank(game));
    assert(is_blank(Seq::<char>::empty()));
}

/// A list file written for a run: which list, where, and what it holds.
#[derive(Debug)]
pub struct ListFile {
    pub kind: ListKind,
    pub path: String,
    pub content: String,
}

impl View for ListFile {
    type V = (ListKind, Seq<char>, Seq<char>);

    open spec fn view(&self) -> (ListKind, Seq<char>, Seq<char>) {
        (self.kind, self.path@, self.content@)
    }
}

/// The list files of a run: for every list, in the order of
/// `all_list_kinds`, its path among `p` and its content in the store `v`.
pub open spec fn run_list_files_of(p: WinwsPaths, v: ListsView) -> Seq<
    (ListKind, Seq<char>, Seq<char>),
> {
    all_list_kinds().map_values(|k: ListKind| (k, list_path_of(p, k), content_in(v, k)))
}

/// The list files to write before the engine starts: each list's content
/// from the store, at the path the engine's command line names for it.
pub fn run_list_files(paths: &WinwsPaths, lists: &ZapretLists) -> (files: Vec<ListFile>)
    ensures
        files@.map_values(|f: ListFile| f@) == run_list_files_of(*paths, lists@),
        files@.len() == 7,
        forall|i: int|
            0 <= i < 7 ==> {
                &&& (#[trigger] files@[i]).kind == all_list_kinds()[i]
                &&& files@[i].path@ == list_path_of(*paths, files@[i].kind)
                &&& files@[i].content@ == content_in(lists@, files@[i].kind)
            },
{
    let kinds = list_kinds();
    let ghost expected = run_list_files_of(*paths, lists@);
    let mut files: Vec<ListFile> = Vec::new();
    let n = kinds.len();
    let mut i: usize = 0;
    while i < n
        invariant
            kinds@ == all_list_kinds(),
            n == 7,
            expected == run_list_files_of(*paths, lists@),
            0 <= i <= n,
            files@.map_values(|f: ListFile| f@) == expected.take(i as int),
        decreases n - i,
    {
        let kind = kinds[i];
        let file = ListFile {
            kind,
            path: String::from_str(paths.list_path(kind)),
            content: String::from_str(lists.content(kind)),
        };
        let ghost before = files@;
        files.push(file);
        assert(files@.map_values(|f: ListFile| f@) =~= before.map_values(|f: ListFile| f@).push(
            expected[i as int],
        ));
        assert(expected.take(i + 1) =~= expected.take(i as int).push(expected[i as int]));
        i = i + 1;
    }
    assert(expected.take(7) =~= expected);
    assert forall|i: int| 0 <= i < 7 implies {
        &&& (#[trigger] files@[i]).kind == all_list_kinds()[i]
        &&& files@[i].path@ == list_path_of(*paths, files@[i].kind)
        &&& files@[i].content@ == content_in(lists@, files@[i].kind)
    } by {
        assert(files@.map_values(|f: ListFile| f@)[i] == files@[i]@);
    }
    files
}

/// Law: every list in the store reaches the engine: among a run's list
/// files there is one for it, holding its content from the store, at a path
/// that the engine's command line names.
pub proof fn law_store_reaches_engine(
    p: WinwsPaths,
    v: ListsView,
    game_tcp: Seq<char>,
    game_udp: Seq<char>,
    kind: ListKind,
)
    ensures
        exists|i: int|
            0 <= i < run_list_files_of(p, v).len() && #[trigger] run_list_files_of(p, v)[i] == (
                kind,
                list_path_of(p, kind),
                content_in(v, kind),
            ) && names_file(winws_arg_list(p, game_tcp, game_udp), list_path_of(p, kind)),
{
    law_all_list_kinds_once(kind);
    law_every_list_reaches_engine(p, game_tcp, game_udp, kind);
    let i = choose|i: int| 0 <= i < all_list_kinds().len() && all_list_kinds()[i] == kind;
    assert(run_list_files_of(p, v)[i] == (kind, list_path_of(p, kind), content_in(v, kind)));
}

/// Law: the port lists are the fixed ports, followed by a comma and the
/// game filter exactly when the filter holds some character that is not
/// white space; the TCP and UDP lists are built the same way.
pub proof fn law_port_lists(game: Seq<char>)
    ensures
        (forall|i: int| 0 <= i < game.len() ==> unicode_white_space(#[trigger] game[i])) ==> {
            &&& tcp_port_list(game) == "80,443,2053,2083,2087,2096,8443"@
            &&& udp_port_list(game) == "443,19294-19344,50000-50100"@
        },
        (exists|i: int| 0 <= i < game.len() && !unicode_white_space(#[trigger] game[i])) ==> {
            &&& tcp_port_list(game) == "80,443,2053,2083,2087,2096,8443"@ + ","@ + game
            &&& udp_port_list(game) == "443,19294-19344,50000-50100"@ + ","@ + game
        },
{
}

/// Law: the engine's command line has 86 arguments, and each game filter
/// reaches it in exactly two places, independently of the other filter:
/// the TCP filter in `--wf-tcp` (first) and in `--filter-tcp` of the TCP
/// game profile (at 66); the UDP filter in `--wf-udp` (second) and in
/// `--filter-udp` of the UDP game profile (at 77). Changing one filter
/// changes nothing else on the command line.
pub proof fn law_game_filters_reach_engine(
    p: WinwsPaths,
    game_tcp: Seq<char>,
    game_udp: Seq<char>,
    other_tcp: Seq<char>,
    other_udp: Seq<char>,
)
    ensures
        winws_arg_list(p, game_tcp, game_udp).len() == 86,
        winws_arg_list(p, game_tcp, game_udp)[0] == "--wf-tcp="@ + tcp_port_list(game_tcp),
        winws_arg_list(p, game_tcp, game_udp)[1] == "--wf-udp="@ + udp_port_list(game_udp),
        winws_arg_list(p, game_tcp, game_udp)[66] == "--filter-tcp="@ + game_tcp,
        winws_arg_list(p, game_tcp, game_udp)[77] == "--filter-udp="@ + game_udp,
        winws_arg_list(p, other_tcp, game_udp) == winws_arg_list(p, game_tcp, game_udp).update(
            0,
            "--wf-tcp="@ + tcp_port_list(other_tcp),
        ).update(66, "--filter-tcp="@ + other_tcp),
        winws_arg_list(p, game_tcp, other_udp) == winws_arg_list(p, game_tcp, game_udp).update(
            1,
            "--wf-udp="@ + udp_port_list(other_udp),
        ).update(77, "--filter-udp="@ + other_udp),
{
    let a = winws_arg_list(p, game_tcp, game_udp);
    assert(winws_arg_list(p, other_tcp, game_udp) =~= a.update(
        0,
        "--wf-tcp="@ + tcp_port_list(other_tcp),
    ).update(66, "--filter-tcp="@ + other_tcp));
    assert(winws_arg_list(p, game_tcp, other_udp) =~= a.update(
        1,
        "--wf-udp="@ + udp_port_list(other_udp),
    ).update(77, "--filter-udp="@ + other_udp));
}

/// Law: joining puts the separator between each two items and nowhere
/// else: nothing joins to the empty text, one item to itself, and one more
/// item adds the separator and that item at the end.
pub proof fn law_seq_join(items: Seq<Seq<char>>, item: Seq<char>, sep: Seq<char>)
    ensures
        seq_join(Seq::empty(), sep) == Seq::<char>::empty(),
        seq_join(seq![item], sep) == item,
        items.len() > 0 ==> seq_join(items.push(item), sep) == seq_join(items, sep) + sep + item,
{
    assert(seq![item].len() == 1);
    if items.len() > 0 {
        assert(items.push(item).drop_last() =~= items);
    }
}

/// Law: the command that starts the engine always asks for elevation: it
/// starts with `Start-Process -FilePath '`, the engine's path and
/// `' -ArgumentList '`, then holds the arguments joined by single spaces,
/// and ends with `' -Verb RunAs`, whatever characters the path holds.
pub proof fn law_start_process_command(winws: Seq<char>, args: Seq<Seq<char>>)
    ensures
        start_process_command(winws, args) == "Start-Process -FilePath '"@ + winws
            + "' -ArgumentList '"@ + seq_join(args, " "@) + "' -Verb RunAs"@,
        start_process_command(winws, args).subrange(
            start_process_command(winws, args).len() - "' -Verb RunAs"@.len(),
            start_process_command(winws, args).len() as int,
        ) == "' -Verb RunAs"@,
{
    let c = start_process_command(winws, args);
    let head = "Start-Process -FilePath '"@ + winws + "' -ArgumentList '"@ + seq_join(args, " "@);
    assert(c == head + "' -Verb RunAs"@);
    assert(c.subrange(head.len() as int, c.len() as int) =~= "' -Verb RunAs"@);
}

/// Law: a run writes exactly one file per list, seven in all, no two at the
/// same path when the list directory is joinable, and the file of each list
/// holds that list's content from the store.
pub proof fn law_run_list_files(p: WinwsPaths, v: ListsView, bin: Seq<char>, dir: Seq<char>)
    requires
        paths_under(p, bin, dir),
        is_joinable_base(dir),
    ensures
        run_list_files_of(p, v).len() == 7,
        forall|i: int|
            0 <= i < 7 ==> (#[trigger] run_list_files_of(p, v)[i]).1 == list_path_of(
                p,
                run_list_files_of(p, v)[i].0,
            ) && run_list_files_of(p, v)[i].2 == content_in(v, run_list_files_of(p, v)[i].0),
        forall|i: int, j: int|
            0 <= i < j < 7 ==> (#[trigger] run_list_files_of(p, v)[i]).1
                != (#[trigger] run_list_files_of(p, v)[j]).1,
{
    let f = run_list_files_of(p, v);
    law_all_list_kinds_once(ListKind::ListGeneral);
    assert forall|i: int, j: int| 0 <= i < j < 7 implies (#[trigger] f[i]).1 != (
    #[trigger] f[j]).1 by {
        let (a, b) = (all_list_kinds()[i], all_list_kinds()[j]);
        assert(a != b);
        law_list_file_names_distinct(a, b);
        lemma_list_file_name_plain(a);
        lemma_list_file_name_plain(b);
        lemma_extends_paths_distinct(list_path_of(p, a), list_path_of(p, b), dir, list_file_name(a), list_file_name(b));
    }
}

} // verus!
