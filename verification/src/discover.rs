//! Finding the images to sort in what the file system showed.

use vstd::prelude::*;
use vstd::string::*;
use crate::app::{path_views, App};
use crate::paths::{is_named_like_image, looks_like_image};

verus! {

/// No session holds more images than this.
pub const MAX_IMAGES: u32 = 500;

/// What the file system showed at one path.
#[derive(Debug)]
pub enum Entry {
    /// A regular file and its leading bytes; `None` where they could not be
    /// read.
    File { path: String, head: Option<Vec<u8>> },
    /// A directory and what it holds, in the order in which it was listed. A
    /// directory that could not be listed holds nothing.
    Dir { path: String, entries: Vec<Entry> },
    /// Nothing at all, or something that is neither file nor directory.
    Other { path: String },
}

/// The path of an entry, as its characters.
pub open spec fn path_of(entry: Entry) -> Seq<char> {
    match entry {
        Entry::File { path, .. } => path@,
        Entry::Dir { path, .. } => path@,
        Entry::Other { path } => path@,
    }
}

impl Entry {
    /// The path at which the entry was found.
    pub fn path(&self) -> (path: &String)
        ensures
            path@ == path_of(*self),
    {
        match self {
            Entry::File { path, .. } => path,
            Entry::Dir { path, .. } => path,
            Entry::Other { path } => path,
        }
    }
}

/// The MIME type that `infer::get` finds for a file that starts with `head`,
/// if it finds one.
pub uninterp spec fn sniffed_mime(head: Seq<u8>) -> Option<Seq<char>>;

/// Calls `infer::get` on the leading bytes of a file and hands back the MIME
/// type of the match, if there is one. All that is claimed of it is that its
/// result depends on the bytes alone: `infer::get` tries its fixed list of
/// matchers in order and takes the first that accepts the buffer.
#[verifier::external_body]
fn sniff(head: &Vec<u8>) -> (mime: Option<String>)
    ensures
        match mime {
            Some(m) => sniffed_mime(head@) == Some(m@),
            None => sniffed_mime(head@).is_none(),
        },
{
    match infer::get(head) {
        Some(kind) => Some(kind.mime_type().to_string()),
        None => None,
    }
}

/// Whether a MIME type is one of the two that are sorted.
pub open spec fn is_image_mime(mime: Seq<char>) -> bool {
    mime == "image/jpeg"@ || mime == "image/png"@
}

/// Whether a sniffed MIME type, if any, is one of the two that are sorted.
pub open spec fn is_image_kind(mime: Option<Seq<char>>) -> bool {
    match mime {
        Some(m) => is_image_mime(m),
        None => false,
    }
}

/// Whether an entry is an image: a regular file that is named like one and
/// whose leading bytes are those of a JPEG or PNG file. The name alone is
/// never enough.
pub open spec fn entry_is_image(entry: Entry) -> bool {
    match entry {
        Entry::File { path, head: Some(bytes) } => looks_like_image(path@) && is_image_kind(
            sniffed_mime(bytes@),
        ),
        _ => false,
    }
}

/// The images among `entries[from..]` and in the directories among them that
/// are searched, in the order in which a search that goes into each directory
/// as it meets it comes by them. `top` tells the paths that were named
/// themselves from those found inside a directory: a directory that was named
/// is always searched, one found inside another only if `recurse` is set.
pub open spec fn images_in(entries: Seq<Entry>, from: nat, recurse: bool, top: bool) -> Seq<
    Seq<char>,
>
    decreases entries, entries.len() - from,
{
    if from >= entries.len() {
        Seq::empty()
    } else {
        images_at(entries[from as int], recurse, top) + images_in(entries, from + 1, recurse, top)
    }
}

/// The images at one entry: the entry itself if it is an image, the images in
/// its directory if it is a directory that is searched.
pub open spec fn images_at(entry: Entry, recurse: bool, top: bool) -> Seq<Seq<char>>
    decreases entry, 0nat,
{
    match entry {
        Entry::File { path, .. } => if entry_is_image(entry) {
            seq![path@]
        } else {
            Seq::empty()
        },
        Entry::Dir { entries, .. } => if top || recurse {
            images_in(entries@, 0, recurse, false)
        } else {
            Seq::empty()
        },
        Entry::Other { .. } => Seq::empty(),
    }
}

/// The images inside a directory. What is no directory holds none.
pub open spec fn images_under(dir: Entry, recurse: bool) -> Seq<Seq<char>> {
    match dir {
        Entry::Dir { entries, .. } => images_in(entries@, 0, recurse, false),
        _ => Seq::empty(),
    }
}

/// The first `n` of `paths`, or all of them if they are fewer.
pub open spec fn first_of(paths: Seq<Seq<char>>, n: nat) -> Seq<Seq<char>> {
    if paths.len() <= n {
        paths
    } else {
        paths.take(n as int)
    }
}

/// The images of a session: the first `MAX_IMAGES` images among the paths
/// that were named and in the directories that are searched.
pub open spec fn discovered(args: Seq<Entry>, recurse: bool) -> Seq<Seq<char>> {
    first_of(images_in(args, 0, recurse, true), MAX_IMAGES as nat)
}

/// How many more images may be taken once `count` have been.
pub open spec fn room_left(count: u32) -> nat {
    if count >= MAX_IMAGES {
        0
    } else {
        (MAX_IMAGES - count) as nat
    }
}

/// However a file is named, it is no image unless its leading bytes are those
/// of a JPEG or PNG file, and a search passes it by.
pub proof fn lemma_name_is_not_enough(path: String, head: Vec<u8>, recurse: bool, top: bool)
    ensures
        entry_is_image(Entry::File { path, head: Some(head) }) ==> is_image_kind(
            sniffed_mime(head@),
        ),
        !is_image_kind(sniffed_mime(head@)) ==> images_at(
            Entry::File { path, head: Some(head) },
            recurse,
            top,
        ) == Seq::<Seq<char>>::empty(),
        !entry_is_image(Entry::File { path, head: None }),
{
}

/// A session never holds more than `MAX_IMAGES` images, however many there
/// are to find.
pub proof fn lemma_discovered_bounded(args: Seq<Entry>, recurse: bool)
    ensures
        discovered(args, recurse).len() <= MAX_IMAGES,
{
}

/// To take the first `n` of two runs is to take the first `n` of the one and
/// then of the other as many as are still wanted.
proof fn lemma_first_of_two(head: Seq<Seq<char>>, tail: Seq<Seq<char>>, n: nat)
    ensures
        first_of(head + tail, n) == first_of(head, n) + first_of(
            tail,
            (n - first_of(head, n).len()) as nat,
        ),
{
}

/// Whether `head` is how `all` starts.
pub open spec fn starts(all: Seq<Seq<char>>, head: Seq<Seq<char>>) -> bool {
    head.len() <= all.len() && all.take(head.len() as int) == head
}

/// Whether `seen` is what a reader has of `all` who went through it in the
/// order of the search and stopped somewhere: all the entries before some
/// entry as they are, and of that entry, if it is a directory, what the same
/// reader has of it.
pub open spec fn is_cut(seen: Seq<Entry>, all: Seq<Entry>) -> bool
    decreases seen, 1nat,
{
    &&& seen.len() <= all.len()
    &&& forall|i: int| 0 <= i < seen.len() - 1 ==> seen[i] == all[i]
    &&& seen.len() > 0 ==> entry_is_cut(seen[seen.len() - 1], all[seen.len() - 1])
}

/// Whether `seen` is what such a reader has of the entry `all`.
pub open spec fn entry_is_cut(seen: Entry, all: Entry) -> bool
    decreases seen, 0nat,
{
    seen == all || match (seen, all) {
        (Entry::Dir { path, entries }, Entry::Dir { path: whole_path, entries: whole }) => path
            == whole_path && is_cut(entries@, whole@),
        _ => false,
    }
}

/// The images in a run of entries are those in its first `k` entries and
/// those in the rest.
proof fn lemma_images_in_split(entries: Seq<Entry>, from: nat, k: nat, recurse: bool, top: bool)
    requires
        from <= k <= entries.len(),
    ensures
        images_in(entries, from, recurse, top) == images_in(
            entries.take(k as int),
            from,
            recurse,
            top,
        ) + images_in(entries, k, recurse, top),
    decreases k - from,
{
    if from < k {
        lemma_images_in_split(entries, from + 1, k, recurse, top);
    }
}

/// A reader who stops early has the images that the search comes by first.
pub proof fn lemma_cut_starts(seen: Seq<Entry>, all: Seq<Entry>, recurse: bool, top: bool)
    requires
        is_cut(seen, all),
    ensures
        starts(images_in(all, 0, recurse, top), images_in(seen, 0, recurse, top)),
    decreases seen, 1nat,
{
    let n = seen.len();
    if n == 0 {
        assert(images_in(all, 0, recurse, top).take(0) =~= images_in(seen, 0, recurse, top));
    } else {
        let k = (n - 1) as nat;
        lemma_images_in_split(seen, 0, k, recurse, top);
        lemma_images_in_split(all, 0, k, recurse, top);
        lemma_images_in_split(all, k, n, recurse, top);
        assert(seen.take(k as int) =~= all.take(k as int));
        let before = images_in(seen.take(k as int), 0, recurse, top);
        let here = images_at(seen[k as int], recurse, top);
        let whole = images_at(all[k as int], recurse, top);
        let rest = images_in(all, n, recurse, top);
        lemma_entry_cut_starts(seen[k as int], all[k as int], recurse, top);
        assert(images_in(seen, k, recurse, top) =~= here) by {
            assert(images_in(seen, k + 1, recurse, top) =~= Seq::<Seq<char>>::empty());
        }
        assert((before + (whole + rest)).take((before + here).len() as int) =~= before + here);
    }
}

/// At one entry a reader who stops early has the images that the search comes
/// by first.
pub proof fn lemma_entry_cut_starts(seen: Entry, all: Entry, recurse: bool, top: bool)
    requires
        entry_is_cut(seen, all),
    ensures
        starts(images_at(all, recurse, top), images_at(seen, recurse, top)),
    decreases seen, 0nat,
{
    if seen == all {
        assert(images_at(all, recurse, top).take(images_at(all, recurse, top).len() as int)
            =~= images_at(all, recurse, top));
    } else {
        match (seen, all) {
            (Entry::Dir { path, entries }, Entry::Dir { path: whole_path, entries: whole }) => {
                if top || recurse {
                    lemma_cut_starts(entries@, whole@, recurse, false);
                } else {
                    assert(images_at(all, recurse, top).take(0) =~= images_at(
                        seen,
                        recurse,
                        top,
                    ));
                }
            },
            _ => {},
        }
    }
}

/// What is read of the file system beyond the image that fills a session
/// changes nothing: a reader who goes through the entries in the order of the
/// search and stops once `MAX_IMAGES` images are read, or at the end, finds
/// the session that a reader of everything finds.
pub proof fn lemma_cut_changes_nothing(seen: Seq<Entry>, all: Seq<Entry>, recurse: bool)
    requires
        is_cut(seen, all),
        images_in(seen, 0, recurse, true).len() >= MAX_IMAGES || seen == all,
    ensures
        discovered(seen, recurse) == discovered(all, recurse),
{
    if seen != all {
        lemma_cut_starts(seen, all, recurse, true);
        let found = images_in(seen, 0, recurse, true);
        let whole = images_in(all, 0, recurse, true);
    }
}

/// What a reader may leave unread changes nothing: a file that is not named
/// like an image is none whatever it holds, and a directory that is not
/// searched adds no image whatever it holds.
pub proof fn lemma_unread_changes_nothing(
    path: String,
    head: Option<Vec<u8>>,
    entries: Vec<Entry>,
    recurse: bool,
)
    ensures
        !looks_like_image(path@) ==> !entry_is_image(Entry::File { path, head }),
        !recurse ==> images_at(Entry::Dir { path, entries }, recurse, false) == Seq::<
            Seq<char>,
        >::empty(),
{
}

/// What the reader of the file system has to know of a search: whether the
/// directories inside a directory are searched, and how many images were met
/// so far. It tells the reader what to read and when a session is full.
pub struct Search {
    recurse: bool,
    count: u32,
}

/// A search as a mathematical value.
pub struct SearchView {
    pub recurse: bool,
    /// The images met so far, counted up to `MAX_IMAGES`.
    pub count: nat,
}

impl View for Search {
    type V = SearchView;

    closed spec fn view(&self) -> SearchView {
        SearchView { recurse: self.recurse, count: self.count as nat }
    }
}

impl Search {
    /// What holds of every value of the type.
    #[verifier::type_invariant]
    spec fn inv(&self) -> bool {
        self.count <= MAX_IMAGES
    }

    /// A search that has met no image yet.
    pub fn new(recurse: bool) -> (search: Search)
        ensures
            search@ == (SearchView { recurse, count: 0 }),
    {
        Search { recurse, count: 0 }
    }

    /// Whether the entries of a directory are wanted: always of one that was
    /// named itself (`top`), of one found inside another only in a search
    /// that goes into them.
    pub fn lists(&self, top: bool) -> (wanted: bool)
        ensures
            wanted == (top || self@.recurse),
    {
        top || self.recurse
    }

    /// Whether the leading bytes of the file at `path` are wanted: only of a
    /// file that is named like an image.
    pub fn reads(&self, path: &str) -> (wanted: bool)
        ensures
            wanted == looks_like_image(path@),
    {
        is_named_like_image(path)
    }

    /// Takes note of an entry that was read: an image counts, unless the
    /// session is full already.
    pub fn note(&mut self, entry: &Entry)
        ensures
            final(self)@ == (SearchView {
                count: if old(self)@.count < MAX_IMAGES && entry_is_image(*entry) {
                    old(self)@.count + 1
                } else {
                    old(self)@.count
                },
                ..old(self)@
            }),
    {
        proof {
            use_type_invariant(&*self);
        }
        if self.count < MAX_IMAGES && App::is_image(entry) {
            self.count = self.count + 1;
        }
    }

    /// Whether as many images were met as a session holds, so that nothing
    /// more needs to be read.
    pub fn is_full(&self) -> (full: bool)
        ensures
            full == (self@.count >= MAX_IMAGES),
    {
        self.count >= MAX_IMAGES
    }
}

/// Whether a MIME type is one of the two that are sorted.
pub fn mime_is_image(mime: &String) -> (image: bool)
    ensures
        image == is_image_mime(mime@),
{
    let jpeg = String::from_str("image/jpeg");
    let png = String::from_str("image/png");
    *mime == jpeg || *mime == png
}

impl App {
    /// Whether an entry is an image. The name is tested first, and only the
    /// bytes of a file that is named like an image are looked at.
    pub fn is_image(entry: &Entry) -> (image: bool)
        ensures
            image == entry_is_image(*entry),
    {
        match entry {
            Entry::File { path, head: Some(bytes) } => {
                if !is_named_like_image(path.as_str()) {
                    return false;
                }
                match sniff(bytes) {
                    Some(mime) => mime_is_image(&mime),
                    None => false,
                }
            },
            _ => false,
        }
    }

    /// The images inside the directory `dir`, in the order in which its
    /// entries were listed, directories inside it being searched only if
    /// `recurse` is set. `count` is the number of images that the session has
    /// taken so far: no more are handed back than it has room for, and
    /// `count` grows by their number.
    pub fn discover_images(dir: &Entry, recurse: bool, count: &mut u32) -> (images: Vec<String>)
        ensures
            path_views(images@) == first_of(images_under(*dir, recurse), room_left(*old(count))),
            *final(count) == *old(count) + images.len(),
        decreases dir,
    {
        let mut images: Vec<String> = Vec::new();
        let ghost room = room_left(*count);
        let list = match dir {
            Entry::Dir { entries, .. } => entries,
            _ => {
                return images;
            },
        };
        let mut i: usize = 0;
        while i < list.len() && *count < MAX_IMAGES
            invariant
                i <= list.len(),
                *dir matches Entry::Dir { entries, .. } && entries == *list,
                *count == *old(count) + images.len(),
                room == room_left(*old(count)),
                images.len() <= room,
                path_views(images@) + first_of(
                    images_in(list@, i as nat, recurse, false),
                    room_left(*count),
                ) == first_of(images_in(list@, 0, recurse, false), room),
            decreases list.len() - i,
        {
            proof {
                lemma_first_of_two(
                    images_at(list[i as int], recurse, false),
                    images_in(list@, (i + 1) as nat, recurse, false),
                    room_left(*count),
                );
            }
            let entry = &list[i];
            let is_dir = match entry {
                Entry::Dir { .. } => true,
                _ => false,
            };
            if is_dir && recurse {
                let mut inner = App::discover_images(entry, recurse, count);
                images.append(&mut inner);
            } else if App::is_image(entry) {
                *count = *count + 1;
                images.push(entry.path().clone());
            }
            i = i + 1;
        }
        images
    }

    /// The images of a session: each path that was named is taken if it is an
    /// image and searched if it is a directory, in the order in which the
    /// paths were named, until `MAX_IMAGES` images are found. A path at which
    /// nothing could be read adds no image and stops nothing.
    pub fn parse_images(args: Vec<Entry>, recurse: bool) -> (images: Vec<String>)
        ensures
            path_views(images@) == discovered(args@, recurse),
            images.len() <= MAX_IMAGES,
    {
        let mut images: Vec<String> = Vec::new();
        let mut count: u32 = 0;
        let mut i: usize = 0;
        while i < args.len() && count < MAX_IMAGES
            invariant
                i <= args.len(),
                count == images.len(),
                count <= MAX_IMAGES,
                path_views(images@) + first_of(
                    images_in(args@, i as nat, recurse, true),
                    room_left(count),
                ) == discovered(args@, recurse),
            decreases args.len() - i,
        {
            proof {
                lemma_first_of_two(
                    images_at(args[i as int], recurse, true),
                    images_in(args@, (i + 1) as nat, recurse, true),
                    room_left(count),
                );
            }
            let entry = &args[i];
            if App::is_image(entry) {
                count = count + 1;
                images.push(entry.path().clone());
            } else {
                let mut inner = App::discover_images(entry, recurse, &mut count);
                images.append(&mut inner);
            }
            i = i + 1;
        }
        images
    }
}

} // verus!
