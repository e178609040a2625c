//! The seven host and IP list files that the engine reads, and the
//! in-memory store of their contents that the user edits.
use vstd::prelude::*;

use crate::paths::{extends_path, is_joinable_base, is_plain_name, join_path, lists_dir};

verus! {

/// One of the list files that the engine reads.
#[derive(Clone, Copy, Debug, PartialEq, Eq, Structural)]
pub enum ListKind {
    /// `list-general.txt`: hosts the engine works on.
    ListGeneral,
    /// `list-general-user.txt`: the user's own additions to the hosts.
    ListGeneralUser,
    /// `list-exclude.txt`: hosts left alone.
    ListExclude,
    /// `list-exclude-user.txt`: the user's own hosts left alone.
    ListExcludeUser,
    /// `ipset-all.txt`: address ranges the engine works on.
    IpsetAll,
    /// `ipset-exclude.txt`: address ranges left alone.
    IpsetExclude,
    /// `ipset-exclude-user.txt`: the user's own address ranges left alone.
    IpsetExcludeUser,
}

/// The file name of each list.
pub open spec fn list_file_name(kind: ListKind) -> Seq<char> {
    match kind {
        ListKind::ListGeneral => "list-general.txt"@,
        ListKind::ListGeneralUser => "list-general-user.txt"@,
        ListKind::ListExclude => "list-exclude.txt"@,
        ListKind::ListExcludeUser => "list-exclude-user.txt"@,
        ListKind::IpsetAll => "ipset-all.txt"@,
        ListKind::IpsetExclude => "ipset-exclude.txt"@,
        ListKind::IpsetExcludeUser => "ipset-exclude-user.txt"@,
    }
}

/// Every list, in the order in which the lists are read and written.
pub open spec fn all_list_kinds() -> Seq<ListKind> {
    seq![
        ListKind::ListGeneral,
        ListKind::ListGeneralUser,
        ListKind::ListExclude,
        ListKind::ListExcludeUser,
        ListKind::IpsetAll,
        ListKind::IpsetExclude,
        ListKind::IpsetExcludeUser,
    ]
}

impl ListKind {
    /// The name of the file that holds this list.
    pub fn file_name(&self) -> (name: &'static str)
        ensures
            name@ == list_file_name(*self),
    {
        match self {
            ListKind::ListGeneral => "list-general.txt",
            ListKind::ListGeneralUser => "list-general-user.txt",
            ListKind::ListExclude => "list-exclude.txt",
            ListKind::ListExcludeUser => "list-exclude-user.txt",
            ListKind::IpsetAll => "ipset-all.txt",
            ListKind::IpsetExclude => "ipset-exclude.txt",
            ListKind::IpsetExcludeUser => "ipset-exclude-user.txt",
        }
    }
}

/// The length of each file name and its seventh character, which together
/// tell the names apart.
spec fn name_signature(kind: ListKind) -> (int, char) {
    match kind {
        ListKind::ListGeneral => (16, 'e'),
        ListKind::ListGeneralUser => (21, 'e'),
        ListKind::ListExclude => (16, 'x'),
        ListKind::ListExcludeUser => (21, 'x'),
        ListKind::IpsetAll => (13, 'a'),
        ListKind::IpsetExclude => (17, 'e'),
        ListKind::IpsetExcludeUser => (22, 'e'),
    }
}

/// Each file name is a plain component with its signature.
proof fn lemma_list_file_name_facts(kind: ListKind)
    ensures
        is_plain_name(list_file_name(kind)),
        list_file_name(kind).len() == name_signature(kind).0,
        list_file_name(kind)[6] == name_signature(kind).1,
{
    match kind {
        ListKind::ListGeneral => {
            reveal_strlit("list-general.txt");
        },
        ListKind::ListGeneralUser => {
            reveal_strlit("list-general-user.txt");
        },
        ListKind::ListExclude => {
            reveal_strlit("list-exclude.txt");
        },
        ListKind::ListExcludeUser => {
            reveal_strlit("list-exclude-user.txt");
        },
        ListKind::IpsetAll => {
            reveal_strlit("ipset-all.txt");
        },
        ListKind::IpsetExclude => {
            reveal_strlit("ipset-exclude.txt");
        },
        ListKind::IpsetExcludeUser => {
            reveal_strlit("ipset-exclude-user.txt");
        },
    }
}

/// Each list file name is a single plain path component.
pub proof fn lemma_list_file_name_plain(kind: ListKind)
    ensures
        is_plain_name(list_file_name(kind)),
{
    lemma_list_file_name_facts(kind);
}

/// Law: no two lists share a file, so writing all of them into one
/// directory never overwrites one with another.
pub proof fn law_list_file_names_distinct(a: ListKind, b: ListKind)
    requires
        a != b,
    ensures
        list_file_name(a) != list_file_name(b),
{
    lemma_list_file_name_facts(a);
    lemma_list_file_name_facts(b);
    assert(name_signature(a) != name_signature(b));
}

/// All the lists, each once, in their order.
pub fn list_kinds() -> (kinds: Vec<ListKind>)
    ensures
        kinds@ == all_list_kinds(),
{
    vec![
        ListKind::ListGeneral,
        ListKind::ListGeneralUser,
        ListKind::ListExclude,
        ListKind::ListExcludeUser,
        ListKind::IpsetAll,
        ListKind::IpsetExclude,
        ListKind::IpsetExcludeUser,
    ]
}

/// Law: every list occurs in `all_list_kinds` exactly once.
pub proof fn law_all_list_kinds_once(kind: ListKind)
    ensures
        all_list_kinds().contains(kind),
        forall|i: int, j: int|
            0 <= i < j < all_list_kinds().len() ==> all_list_kinds()[i] != all_list_kinds()[j],
{
    let s = all_list_kinds();
    match kind {
        ListKind::ListGeneral => assert(s[0] == kind),
        ListKind::ListGeneralUser => assert(s[1] == kind),
        ListKind::ListExclude => assert(s[2] == kind),
        ListKind::ListExcludeUser => assert(s[3] == kind),
        ListKind::IpsetAll => assert(s[4] == kind),
        ListKind::IpsetExclude => assert(s[5] == kind),
        ListKind::IpsetExcludeUser => assert(s[6] == kind),
    }
}

/// The path of a list's file in `dir`.
pub fn list_file_path(dir: &str, kind: ListKind) -> (path: String)
    ensures
        is_joinable_base(dir@) ==> extends_path(path@, dir@, list_file_name(kind)),
{
    proof {
        lemma_list_file_name_plain(kind);
    }
    join_path(dir, kind.file_name())
}

/// The contents of the seven lists: the store that the user edits and from
/// which the engine's list files are written.
#[derive(Debug)]
pub struct ZapretLists {
    pub list_general: String,
    pub list_general_user: String,
    pub list_exclude: String,
    pub list_exclude_user: String,
    pub ipset_all: String,
    pub ipset_exclude: String,
    pub ipset_exclude_user: String,
}

/// The seven contents, in the order of `all_list_kinds`.
pub type ListsView = (Seq<char>, Seq<char>, Seq<char>, Seq<char>, Seq<char>, Seq<char>, Seq<char>);

impl View for ZapretLists {
    type V = ListsView;

    open spec fn view(&self) -> ListsView {
        (
            self.list_general@,
            self.list_general_user@,
            self.list_exclude@,
            self.list_exclude_user@,
            self.ipset_all@,
            self.ipset_exclude@,
            self.ipset_exclude_user@,
        )
    }
}

/// The content of one list.
pub open spec fn content_in(v: ListsView, kind: ListKind) -> Seq<char> {
    match kind {
        ListKind::ListGeneral => v.0,
        ListKind::ListGeneralUser => v.1,
        ListKind::ListExclude => v.2,
        ListKind::ListExcludeUser => v.3,
        ListKind::IpsetAll => v.4,
        ListKind::IpsetExclude => v.5,
        ListKind::IpsetExcludeUser => v.6,
    }
}

/// The lists with the content of one replaced.
pub open spec fn with_content(v: ListsView, kind: ListKind, c: Seq<char>) -> ListsView {
    match kind {
        ListKind::ListGeneral => (c, v.1, v.2, v.3, v.4, v.5, v.6),
        ListKind::ListGeneralUser => (v.0, c, v.2, v.3, v.4, v.5, v.6),
        ListKind::ListExclude => (v.0, v.1, c, v.3, v.4, v.5, v.6),
        ListKind::ListExcludeUser => (v.0, v.1, v.2, c, v.4, v.5, v.6),
        ListKind::IpsetAll => (v.0, v.1, v.2, v.3, c, v.5, v.6),
        ListKind::IpsetExclude => (v.0, v.1, v.2, v.3, v.4, c, v.6),
        ListKind::IpsetExcludeUser => (v.0, v.1, v.2, v.3, v.4, v.5, c),
    }
}

/// Seven empty lists.
pub open spec fn empty_lists() -> ListsView {
    (Seq::empty(), Seq::empty(), Seq::empty(), Seq::empty(), Seq::empty(), Seq::empty(), Seq::empty())
}

/// Law: setting a list's content and reading it back gives that content,
/// and leaves every other list as it was.
pub proof fn law_content_after_set(v: ListsView, kind: ListKind, c: Seq<char>, other: ListKind)
    ensures
        content_in(with_content(v, kind, c), kind) == c,
        other != kind ==> content_in(with_content(v, kind, c), other) == content_in(v, other),
{
}

/// Law: two stores with the same content in every list are the same store.
pub proof fn law_lists_determined_by_contents(v: ListsView, w: ListsView)
    requires
        forall|k: ListKind| content_in(v, k) == content_in(w, k),
    ensures
        v == w,
{
    assert(content_in(v, ListKind::ListGeneral) == content_in(w, ListKind::ListGeneral));
    assert(content_in(v, ListKind::ListGeneralUser) == content_in(w, ListKind::ListGeneralUser));
    assert(content_in(v, ListKind::ListExclude) == content_in(w, ListKind::ListExclude));
    assert(content_in(v, ListKind::ListExcludeUser) == content_in(w, ListKind::ListExcludeUser));
    assert(content_in(v, ListKind::IpsetAll) == content_in(w, ListKind::IpsetAll));
    assert(content_in(v, ListKind::IpsetExclude) == content_in(w, ListKind::IpsetExclude));
    assert(content_in(v, ListKind::IpsetExcludeUser) == content_in(w, ListKind::IpsetExcludeUser));
}

impl ZapretLists {
    /// Seven empty lists.
    pub fn new() -> (lists: Self)
        ensures
            lists@ == empty_lists(),
    {
        ZapretLists {
            list_general: String::new(),
            list_general_user: String::new(),
            list_exclude: String::new(),
            list_exclude_user: String::new(),
            ipset_all: String::new(),
            ipset_exclude: String::new(),
            ipset_exclude_user: String::new(),
        }
    }

    /// The content of one list.
    pub fn content(&self, kind: ListKind) -> (c: &str)
        ensures
            c@ == content_in(self@, kind),
    {
        match kind {
            ListKind::ListGeneral => self.list_general.as_str(),
            ListKind::ListGeneralUser => self.list_general_user.as_str(),
            ListKind::ListExclude => self.list_exclude.as_str(),
            ListKind::ListExcludeUser => self.list_exclude_user.as_str(),
            ListKind::IpsetAll => self.ipset_all.as_str(),
            ListKind::IpsetExclude => self.ipset_exclude.as_str(),
            ListKind::IpsetExcludeUser => self.ipset_exclude_user.as_str(),
        }
    }

    /// Replaces the content of one list.
    pub fn set_content(&mut self, kind: ListKind, content: String)
        ensures
            final(self)@ == with_content(old(self)@, kind, content@),
    {
        match kind {
            ListKind::ListGeneral => self.list_general = content,
            ListKind::ListGeneralUser => self.list_general_user = content,
            ListKind::ListExclude => self.list_exclude = content,
            ListKind::ListExcludeUser => self.list_exclude_user = content,
            ListKind::IpsetAll => self.ipset_all = content,
            ListKind::IpsetExclude => self.ipset_exclude = content,
            ListKind::IpsetExcludeUser => self.ipset_exclude_user = content,
        }
    }
}

impl Default for ZapretLists {
    fn default() -> (lists: Self)
        ensures
            lists@ == empty_lists(),
    {
        ZapretLists::new()
    }
}

/// What a read of the store gives: every list as the store holds it.
pub open spec fn store_read(state: ListsView) -> ListsView {
    state
}

/// What the store holds after an update: the written lists, whatever it
/// held before.
pub open spec fn store_updated(before: ListsView, written: ListsView) -> ListsView {
    written
}

/// Reads the store: a copy of every list.
pub fn get_zapret_lists(state: &ZapretLists) -> (lists: ZapretLists)
    ensures
        lists@ == store_read(state@),
        lists@ == state@,
        forall|k: ListKind| content_in(lists@, k) == content_in(state@, k),
{
    ZapretLists {
        list_general: state.list_general.clone(),
        list_general_user: state.list_general_user.clone(),
        list_exclude: state.list_exclude.clone(),
        list_exclude_user: state.list_exclude_user.clone(),
        ipset_all: state.ipset_all.clone(),
        ipset_exclude: state.ipset_exclude.clone(),
        ipset_exclude_user: state.ipset_exclude_user.clone(),
    }
}

/// Replaces the whole store.
pub fn update_zapret_lists(state: &mut ZapretLists, lists: ZapretLists)
    ensures
        final(state)@ == store_updated(old(state)@, lists@),
        final(state)@ == lists@,
        forall|k: ListKind| content_in(final(state)@, k) == content_in(lists@, k),
{
    *state = lists;
}

/// Law: reading the store gives every list exactly as the store holds it,
/// an update leaves every list exactly as written, whatever the store held
/// before, and so a read right after an update gives back what was written.
pub proof fn law_get_after_update(before: ListsView, written: ListsView, rewritten: ListsView)
    ensures
        store_read(before) == before,
        forall|k: ListKind| content_in(store_read(before), k) == content_in(before, k),
        store_updated(before, written) == written,
        forall|k: ListKind| content_in(store_updated(before, written), k) == content_in(written, k),
        store_read(store_updated(before, written)) == written,
        store_updated(store_updated(before, written), rewritten) == rewritten,
{
}

/// Builds the store from the seven contents given in the order of
/// `all_list_kinds`, as when a preset's files are read.
pub fn lists_from_contents(contents: Vec<String>) -> (lists: ZapretLists)
    requires
        contents.len() == 7,
    ensures
        forall|i: int|
            0 <= i < 7 ==> content_in(lists@, #[trigger] all_list_kinds()[i]) == contents@[i]@,
{
    let mut contents = contents;
    let ipset_exclude_user = contents.pop().unwrap();
    let ipset_exclude = contents.pop().unwrap();
    let ipset_all = contents.pop().unwrap();
    let list_exclude_user = contents.pop().unwrap();
    let list_exclude = contents.pop().unwrap();
    let list_general_user = contents.pop().unwrap();
    let list_general = contents.pop().unwrap();
    ZapretLists {
        list_general,
        list_general_user,
        list_exclude,
        list_exclude_user,
        ipset_all,
        ipset_exclude,
        ipset_exclude_user,
    }
}

/// The content a user list starts with when its file is missing: a
/// placeholder entry that matches nothing real.
pub open spec fn user_list_default(kind: ListKind) -> Seq<char> {
    match kind {
        ListKind::IpsetExcludeUser => "203.0.113.113/32\r\n"@,
        ListKind::ListGeneralUser => "domain.example.abc\r\n"@,
        ListKind::ListExcludeUser => "domain.example.abc\r\n"@,
        _ => Seq::empty(),
    }
}

/// The user lists that must exist before the engine starts, in the order
/// in which they are made.
pub open spec fn user_list_kinds() -> Seq<ListKind> {
    seq![ListKind::IpsetExcludeUser, ListKind::ListGeneralUser, ListKind::ListExcludeUser]
}

/// A list file to create with some content unless it exists.
#[derive(Debug)]
pub struct DefaultListFile {
    pub kind: ListKind,
    pub path: String,
    pub content: String,
}

/// The user list files under a resource base and the directory that holds
/// them.
#[derive(Debug)]
pub struct UserListFiles {
    pub lists_dir: String,
    pub files: Vec<DefaultListFile>,
}

/// The user list files under `base/lists` that must exist before the engine
/// starts, each with the content it gets when it is missing. Each is to be
/// created in this order unless it exists, stopping at the first failure.
pub fn ensure_user_lists(base: &str) -> (plan: UserListFiles)
    ensures
        is_joinable_base(base@) ==> extends_path(plan.lists_dir@, base@, "lists"@),
        is_joinable_base(base@) ==> is_joinable_base(plan.lists_dir@),
        plan.files@.len() == 3,
        forall|i: int|
            0 <= i < 3 ==> {
                &&& (#[trigger] plan.files@[i]).kind == user_list_kinds()[i]
                &&& plan.files@[i].content@ == user_list_default(plan.files@[i].kind)
                &&& is_joinable_base(plan.lists_dir@) ==> extends_path(
                    plan.files@[i].path@,
                    plan.lists_dir@,
                    list_file_name(plan.files@[i].kind),
                )
            },
{
    let dir = lists_dir(base);
    let mut files: Vec<DefaultListFile> = Vec::new();
    files.push(
        DefaultListFile {
            kind: ListKind::IpsetExcludeUser,
            path: list_file_path(dir.as_str(), ListKind::IpsetExcludeUser),
            content: String::from_str("203.0.113.113/32\r\n"),
        },
    );
    files.push(
        DefaultListFile {
            kind: ListKind::ListGeneralUser,
            path: list_file_path(dir.as_str(), ListKind::ListGeneralUser),
            content: String::from_str("domain.example.abc\r\n"),
        },
    );
    files.push(
        DefaultListFile {
            kind: ListKind::ListExcludeUser,
            path: list_file_path(dir.as_str(), ListKind::ListExcludeUser),
            content: String::from_str("domain.example.abc\r\n"),
        },
    );
    UserListFiles { lists_dir: dir, files }
}

/// Checks a preset's name: only `original`, the lists shipped with the
/// engine, is known.
pub fn check_preset(name: &str) -> (checked: Result<(), String>)
    ensures
        checked is Ok <==> name@ == "original"@,
        checked matches Err(e) ==> e@ == "unknown preset: "@ + name@,
{
    if String::from_str(name) == String::from_str("original") {
        Ok(())
    } else {
        let mut e = String::from_str("unknown preset: ");
        e.append(name);
        Err(e)
    }
}

} // verus!
