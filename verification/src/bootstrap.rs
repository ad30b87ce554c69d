//! The directory and seed-file skeleton that the worker expects under the
//! application root.
//!
//! Nothing here touches the disk. The host looks whether an entry exists, asks
//! this module what to do about it, and performs the answer. What performing
//! an answer does to the root is modelled by [`perform`], so that the effect of
//! a whole pass over the layout can be stated and proved.

use vstd::prelude::*;
use vstd::string::StringSliceAdditionalSpecFns;
use vstd::utf8::encode_utf8_decode_utf8;

verus! {

/// The entries of the layout, in the order in which a pass visits them.
#[derive(Clone, Copy, Debug, PartialEq, Eq, Structural)]
pub enum LayoutItem {
    /// Directory of the vector store.
    VectorStore,
    /// Directory of uploaded files.
    Uploads,
    /// Seed file of the chat records.
    ChatRecords,
    /// Seed file of the user records.
    UserRecords,
    /// Seed file of the document records.
    DocumentRecords,
}

/// What the host has to do about one entry of the layout.
#[derive(Clone, Copy, Debug, PartialEq, Eq)]
pub enum BootstrapAction<'a> {
    /// Create the directory `name` under the root, with missing parents.
    CreateDirectory { name: &'a str },
    /// Create the file `name` under the root and write `content` to it.
    WriteFile { name: &'a str, content: &'static str },
    /// Leave the entry as it is.
    Keep,
}

/// A [`BootstrapAction`] with its texts as character sequences.
pub enum ActionView {
    CreateDirectory { name: Seq<char> },
    WriteFile { name: Seq<char>, content: Seq<char> },
    Keep,
}

impl<'a> View for BootstrapAction<'a> {
    type V = ActionView;

    open spec fn view(&self) -> ActionView {
        match *self {
            BootstrapAction::CreateDirectory { name } => ActionView::CreateDirectory {
                name: name@,
            },
            BootstrapAction::WriteFile { name, content } => ActionView::WriteFile {
                name: name@,
                content: content@,
            },
            BootstrapAction::Keep => ActionView::Keep,
        }
    }
}

/// Name of the application root below the user's home directory.
pub fn root_directory() -> (name: &'static str)
    ensures
        name@ == ".hasbase"@,
{
    ".hasbase"
}

/// The JSON body that a seed file named `file_name` starts with: an empty
/// mapping under the key of the records it stores, and an empty object for
/// any other name.
pub open spec fn seed_body(file_name: Seq<char>) -> Seq<char> {
    if file_name == "chatDB.json"@ {
        "{\"chats\": {}}"@
    } else if file_name == "documentDB.json"@ {
        "{\"documents\": {}}"@
    } else if file_name == "userDB.json"@ {
        "{\"users\": {}}"@
    } else {
        "{}"@
    }
}

/// What is to be done about a directory named `name`: it is created unless
/// something of that name exists.
pub open spec fn directory_plan(name: Seq<char>, exists: bool) -> ActionView {
    if exists {
        ActionView::Keep
    } else {
        ActionView::CreateDirectory { name }
    }
}

/// What is to be done about a seed file named `name`: it is written with its
/// [`seed_body`] unless something of that name exists.
pub open spec fn seed_file_plan(name: Seq<char>, exists: bool) -> ActionView {
    if exists {
        ActionView::Keep
    } else {
        ActionView::WriteFile { name, content: seed_body(name) }
    }
}

/// Whether two texts hold the same characters.
fn same_text(a: &str, b: &str) -> (same: bool)
    ensures
        same == (a@ == b@),
{
    let x = a.as_bytes();
    let y = b.as_bytes();
    proof {
        encode_utf8_decode_utf8(a@);
        encode_utf8_decode_utf8(b@);
    }
    if x.len() != y.len() {
        return false;
    }
    let mut i: usize = 0;
    while i < x.len()
        invariant
            i <= x@.len(),
            x@.len() == y@.len(),
            x@ == a.spec_bytes(),
            y@ == b.spec_bytes(),
            forall|k: int| 0 <= k < i ==> x@[k] == y@[k],
        decreases x@.len() - i,
    {
        if x[i] != y[i] {
            return false;
        }
        i += 1;
    }
    assert(x@ =~= y@);
    true
}

/// The body that a seed file named `file_name` is created with.
pub fn seed_content(file_name: &str) -> (body: &'static str)
    ensures
        body@ == seed_body(file_name@),
{
    if same_text(file_name, "chatDB.json") {
        "{\"chats\": {}}"
    } else if same_text(file_name, "documentDB.json") {
        "{\"documents\": {}}"
    } else if same_text(file_name, "userDB.json") {
        "{\"users\": {}}"
    } else {
        "{}"
    }
}

/// Decides what to do about the directory `dir_name`, given whether an entry
/// of that name exists under the root.
pub fn ensure_directory<'a>(dir_name: &'a str, exists: bool) -> (action: BootstrapAction<'a>)
    ensures
        action@ == directory_plan(dir_name@, exists),
{
    if exists {
        BootstrapAction::Keep
    } else {
        BootstrapAction::CreateDirectory { name: dir_name }
    }
}

/// Decides what to do about the seed file `file_name`, given whether an entry
/// of that name exists under the root. An existing file is never rewritten.
pub fn ensure_json_file<'a>(file_name: &'a str, exists: bool) -> (action: BootstrapAction<'a>)
    ensures
        action@ == seed_file_plan(file_name@, exists),
{
    if exists {
        BootstrapAction::Keep
    } else {
        BootstrapAction::WriteFile { name: file_name, content: seed_content(file_name) }
    }
}

/// Name of `item` under the root.
pub open spec fn item_name(item: LayoutItem) -> Seq<char> {
    match item {
        LayoutItem::VectorStore => "vector_db"@,
        LayoutItem::Uploads => "uploads"@,
        LayoutItem::ChatRecords => "chatDB.json"@,
        LayoutItem::UserRecords => "userDB.json"@,
        LayoutItem::DocumentRecords => "documentDB.json"@,
    }
}

/// Whether `item` is a directory; the others are seed files.
pub open spec fn item_is_directory(item: LayoutItem) -> bool {
    item is VectorStore || item is Uploads
}

/// The entry that a pass visits after `item`, if any.
pub open spec fn item_after(item: LayoutItem) -> Option<LayoutItem> {
    match item {
        LayoutItem::VectorStore => Some(LayoutItem::Uploads),
        LayoutItem::Uploads => Some(LayoutItem::ChatRecords),
        LayoutItem::ChatRecords => Some(LayoutItem::UserRecords),
        LayoutItem::UserRecords => Some(LayoutItem::DocumentRecords),
        LayoutItem::DocumentRecords => None,
    }
}

/// Number of entries that a pass still has to visit once it stands at `item`,
/// `item` included.
pub open spec fn items_left(item: LayoutItem) -> nat {
    match item {
        LayoutItem::VectorStore => 5,
        LayoutItem::Uploads => 4,
        LayoutItem::ChatRecords => 3,
        LayoutItem::UserRecords => 2,
        LayoutItem::DocumentRecords => 1,
    }
}

/// What is to be done about `item`, given whether an entry of its name exists.
pub open spec fn item_plan(item: LayoutItem, exists: bool) -> ActionView {
    if item_is_directory(item) {
        directory_plan(item_name(item), exists)
    } else {
        seed_file_plan(item_name(item), exists)
    }
}

impl LayoutItem {
    /// The entry that a pass starts with.
    pub fn first() -> (item: LayoutItem)
        ensures
            item == LayoutItem::VectorStore,
    {
        LayoutItem::VectorStore
    }

    /// The entry that follows this one, or `None` after the last.
    pub fn next(&self) -> (following: Option<LayoutItem>)
        ensures
            following == item_after(*self),
    {
        match self {
            LayoutItem::VectorStore => Some(LayoutItem::Uploads),
            LayoutItem::Uploads => Some(LayoutItem::ChatRecords),
            LayoutItem::ChatRecords => Some(LayoutItem::UserRecords),
            LayoutItem::UserRecords => Some(LayoutItem::DocumentRecords),
            LayoutItem::DocumentRecords => None,
        }
    }

    /// Name of the entry under the root.
    pub fn name(&self) -> (name: &'static str)
        ensures
            name@ == item_name(*self),
    {
        match self {
            LayoutItem::VectorStore => "vector_db",
            LayoutItem::Uploads => "uploads",
            LayoutItem::ChatRecords => "chatDB.json",
            LayoutItem::UserRecords => "userDB.json",
            LayoutItem::DocumentRecords => "documentDB.json",
        }
    }

    /// Whether the entry is a directory; the others are seed files.
    pub fn is_directory(&self) -> (directory: bool)
        ensures
            directory == item_is_directory(*self),
    {
        match self {
            LayoutItem::VectorStore => true,
            LayoutItem::Uploads => true,
            _ => false,
        }
    }

    /// Decides what to do about the entry, given whether something of its
    /// name exists under the root.
    pub fn plan(&self, exists: bool) -> (action: BootstrapAction<'static>)
        ensures
            action@ == item_plan(*self, exists),
    {
        if self.is_directory() {
            ensure_directory(self.name(), exists)
        } else {
            ensure_json_file(self.name(), exists)
        }
    }
}

/// What is found under a name of the root.
pub enum Entry {
    Directory,
    File { content: Seq<char> },
}

/// The root after the host has performed `action` on it with success.
pub open spec fn perform(root: Map<Seq<char>, Entry>, action: ActionView) -> Map<Seq<char>, Entry> {
    match action {
        ActionView::CreateDirectory { name } => root.insert(name, Entry::Directory),
        ActionView::WriteFile { name, content } => root.insert(name, Entry::File { content }),
        ActionView::Keep => root,
    }
}

/// The root after `item` has been visited: the host looks whether the name
/// exists and performs what [`item_plan`] answers. Where `succeeds` is false
/// the host fails to perform it and the root stays as it was.
pub open spec fn visit(root: Map<Seq<char>, Entry>, item: LayoutItem, succeeds: bool) -> Map<
    Seq<char>,
    Entry,
> {
    if succeeds {
        perform(root, item_plan(item, root.dom().contains(item_name(item))))
    } else {
        root
    }
}

/// The root after a pass has visited `item` and every entry after it, where
/// the host fails at the entries in `failures` and succeeds at the others.
/// A failure at one entry does not keep the pass from the entries after it.
pub open spec fn pass_from(
    item: LayoutItem,
    root: Map<Seq<char>, Entry>,
    failures: Set<LayoutItem>,
) -> Map<Seq<char>, Entry>
    decreases items_left(item),
{
    let visited = visit(root, item, !failures.contains(item));
    match item_after(item) {
        Some(following) => pass_from(following, visited, failures),
        None => visited,
    }
}

/// The root after a whole pass over the layout.
pub open spec fn bootstrapped(root: Map<Seq<char>, Entry>, failures: Set<LayoutItem>) -> Map<
    Seq<char>,
    Entry,
> {
    pass_from(LayoutItem::VectorStore, root, failures)
}

/// Visiting an entry leaves everything that exists as it is: nothing is
/// removed, no directory is replaced and no file is rewritten.
pub proof fn visit_keeps_existing(
    root: Map<Seq<char>, Entry>,
    item: LayoutItem,
    succeeds: bool,
    name: Seq<char>,
)
    requires
        root.dom().contains(name),
    ensures
        visit(root, item, succeeds).dom().contains(name),
        visit(root, item, succeeds)[name] == root[name],
{
}

/// A pass leaves everything that exists as it is, whatever fails on the way.
pub proof fn pass_keeps_existing(
    item: LayoutItem,
    root: Map<Seq<char>, Entry>,
    failures: Set<LayoutItem>,
    name: Seq<char>,
)
    requires
        root.dom().contains(name),
    ensures
        pass_from(item, root, failures).dom().contains(name),
        pass_from(item, root, failures)[name] == root[name],
    decreases items_left(item),
{
    let visited = visit(root, item, !failures.contains(item));
    visit_keeps_existing(root, item, !failures.contains(item), name);
    match item_after(item) {
        Some(following) => pass_keeps_existing(following, visited, failures, name),
        None => {},
    }
}

/// Whether `item` and every entry after it exist under the root.
pub open spec fn present_from(item: LayoutItem, root: Map<Seq<char>, Entry>) -> bool
    decreases items_left(item),
{
    &&& root.dom().contains(item_name(item))
    &&& match item_after(item) {
        Some(following) => present_from(following, root),
        None => true,
    }
}

/// A pass over a root that already holds the entries it visits changes
/// nothing, wherever it fails.
pub proof fn pass_over_present_changes_nothing(
    item: LayoutItem,
    root: Map<Seq<char>, Entry>,
    failures: Set<LayoutItem>,
)
    requires
        present_from(item, root),
    ensures
        pass_from(item, root, failures) == root,
    decreases items_left(item),
{
    match item_after(item) {
        Some(following) => pass_over_present_changes_nothing(following, root, failures),
        None => {},
    }
}

/// After a pass that failed nowhere, `item` and every entry after it exist.
pub proof fn pass_makes_present(item: LayoutItem, root: Map<Seq<char>, Entry>)
    ensures
        present_from(item, pass_from(item, root, Set::empty())),
    decreases items_left(item),
{
    let visited = visit(root, item, true);
    match item_after(item) {
        Some(following) => {
            pass_makes_present(following, visited);
            pass_keeps_existing(following, visited, Set::empty(), item_name(item));
        },
        None => {},
    }
}

/// A second pass over a root on which a first pass failed nowhere changes
/// nothing: no directory is created again and no file is rewritten, wherever
/// the second pass fails.
pub proof fn bootstrap_twice_changes_nothing(
    root: Map<Seq<char>, Entry>,
    failures: Set<LayoutItem>,
)
    ensures
        bootstrapped(bootstrapped(root, Set::empty()), failures) == bootstrapped(
            root,
            Set::empty(),
        ),
{
    pass_makes_present(LayoutItem::VectorStore, root);
    pass_over_present_changes_nothing(
        LayoutItem::VectorStore,
        bootstrapped(root, Set::empty()),
        failures,
    );
}

} // verus!
