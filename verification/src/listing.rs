use vstd::prelude::*;

verus! {

/// One directory child as the single non-recursive read retrieves it: the
/// flag from the filesystem type check, and the two texts, absent where
/// they could not be decoded as text.
#[derive(Debug, Clone, PartialEq, Eq)]
pub struct RawEntry {
    /// The final path segment, `None` if it cannot be decoded as text.
    pub name: Option<String>,
    /// The entry's full path, `None` if it cannot be represented as text.
    pub path: Option<String>,
    /// Whether the entry is itself a directory.
    pub is_dir: bool,
}

/// The shallow record describing one directory child, as handed to the
/// caller: name, full path and directory flag, with empty text standing
/// for anything that could not be decoded.
#[derive(Debug, Clone, PartialEq, Eq)]
pub struct FileItem {
    pub name: String,
    pub path: String,
    pub is_dir: bool,
}

/// The mathematical shape of one descriptor: the two texts and the flag.
#[verifier::ext_equal]
pub struct EntryModel {
    pub name: Seq<char>,
    pub path: Seq<char>,
    pub is_dir: bool,
}

impl View for FileItem {
    type V = EntryModel;

    open spec fn view(&self) -> EntryModel {
        EntryModel { name: self.name@, path: self.path@, is_dir: self.is_dir }
    }
}

/// The text held by `t`, or the empty text where none could be decoded.
pub open spec fn text_or_empty(t: Option<String>) -> Seq<char> {
    match t {
        Some(s) => s@,
        None => Seq::<char>::empty(),
    }
}

/// The descriptor owed for the raw entry `raw`.
pub open spec fn entry_model(raw: RawEntry) -> EntryModel {
    EntryModel {
        name: text_or_empty(raw.name),
        path: text_or_empty(raw.path),
        is_dir: raw.is_dir,
    }
}

/// The descriptors owed for a whole read, child by child, in read order.
pub open spec fn entry_models(entries: Seq<RawEntry>) -> Seq<EntryModel> {
    entries.map_values(|r: RawEntry| entry_model(r))
}

/// What a sequence of descriptors says, item by item.
pub open spec fn item_models(items: Seq<FileItem>) -> Seq<EntryModel> {
    items.map_values(|it: FileItem| it@)
}

/// Builds the descriptor for one successfully retrieved child: the flag as
/// read, each text defaulted to empty where it could not be decoded.
pub fn describe_entry(raw: &RawEntry) -> (item: FileItem)
    ensures
        item@ == entry_model(*raw),
{
    let name = match &raw.name {
        Some(n) => n.clone(),
        None => String::new(),
    };
    let path = match &raw.path {
        Some(p) => p.clone(),
        None => String::new(),
    };
    let item = FileItem { name, path, is_dir: raw.is_dir };
    proof {
        assert(item@ =~= entry_model(*raw));
    }
    item
}

/// Builds the whole listing for one successful read: exactly one
/// descriptor per retrieved child, in read order.
pub fn build_listing(entries: &Vec<RawEntry>) -> (items: Vec<FileItem>)
    ensures
        items@.len() == entries@.len(),
        item_models(items@) == entry_models(entries@),
{
    let mut items: Vec<FileItem> = Vec::new();
    let mut i: usize = 0;
    while i < entries.len()
        invariant
            i <= entries@.len(),
            items@.len() == i,
            item_models(items@) =~= entry_models(entries@.take(i as int)),
        decreases entries@.len() - i,
    {
        let item = describe_entry(&entries[i]);
        let ghost prev = items@;
        let ghost model = item@;
        items.push(item);
        proof {
            assert(items@ =~= prev.push(items@[i as int]));
            assert(item_models(items@) =~= item_models(prev).push(model));
            assert(entries@.take(i + 1 as int) =~= entries@.take(i as int).push(
                entries@[i as int],
            ));
            assert(entry_models(entries@.take(i + 1 as int)) =~= entry_models(
                entries@.take(i as int),
            ).push(entry_model(entries@[i as int])));
            assert(item_models(items@) =~= entry_models(entries@.take(i + 1 as int)));
        }
        i += 1;
    }
    proof {
        assert(entries@.take(entries@.len() as int) =~= entries@);
        assert(item_models(items@) =~= entry_models(entries@));
    }
    items
}

/// Completes a directory listing from the outcome of the one directory
/// read. A failed read fails the listing with the failure's own text,
/// unchanged; a successful read yields one descriptor per retrieved
/// child, in read order — and nothing else ever fails.
pub fn list_directory_from_read(read: Result<Vec<RawEntry>, String>) -> (r: Result<
    Vec<FileItem>,
    String,
>)
    ensures
        r is Ok <==> read is Ok,
        read matches Ok(entries) ==> (r matches Ok(items) && items@.len() == entries@.len()
            && item_models(items@) == entry_models(entries@)),
        read matches Err(msg) ==> r == Result::<Vec<FileItem>, String>::Err(msg),
{
    match read {
        Ok(entries) => Ok(build_listing(&entries)),
        Err(msg) => Err(msg),
    }
}

} // verus!
