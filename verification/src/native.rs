//! Strings as the operating system holds them: paths, program names and arguments.

use vstd::prelude::*;
use vstd::utf8::*;

verus! {

/// A path or an argument: bytes that are usually, but not always, UTF-8.
#[derive(Debug, PartialEq, Eq)]
pub struct NativeString {
    pub bytes: Vec<u8>,
}

impl View for NativeString {
    type V = Seq<u8>;

    open spec fn view(&self) -> Seq<u8> {
        self.bytes@
    }
}

impl DeepView for NativeString {
    type V = Seq<u8>;

    open spec fn deep_view(&self) -> Seq<u8> {
        self.bytes@
    }
}

impl Clone for NativeString {
    fn clone(&self) -> (copy: Self)
        ensures
            copy@ == self@,
    {
        let bytes = self.bytes.clone();
        assert(bytes@ =~= self.bytes@);
        NativeString { bytes }
    }
}

/// What [`String::from_utf8_lossy`] makes of bytes that are not UTF-8.
pub uninterp spec fn lossy_text(bytes: Seq<u8>) -> Seq<char>;

/// Calls `String::from_utf8_lossy`. Bytes that are UTF-8 come back as the text they encode; what
/// stands for the invalid pieces of other bytes is named, not described.
#[verifier::external_body]
fn from_utf8_lossy(bytes: &Vec<u8>) -> (text: String)
    ensures
        text@ == lossy_text(bytes@),
        valid_utf8(bytes@) ==> text@ == decode_utf8(bytes@),
{
    String::from_utf8_lossy(bytes).into_owned()
}

/// The text that bytes are shown as: the text they encode, or a lossy reading of them.
pub open spec fn shown_text(bytes: Seq<u8>) -> Seq<char> {
    if valid_utf8(bytes) {
        decode_utf8(bytes)
    } else {
        lossy_text(bytes)
    }
}

/// A path below a directory. An absolute `name` stands for itself; otherwise one separator
/// stands between the two, unless the directory is empty or ends in one.
pub open spec fn path_below(dir: Seq<u8>, name: Seq<u8>) -> Seq<u8> {
    if name.len() > 0 && name[0] == 0x2f {
        name
    } else if dir.len() > 0 && dir.last() != 0x2f {
        dir.push(0x2f) + name
    } else {
        dir + name
    }
}

/// Whether `path` is the entry `name` of the directory `dir`.
pub open spec fn is_entry(dir: Seq<u8>, path: Seq<u8>, name: Seq<u8>) -> bool {
    &&& name.len() > 0
    &&& !name.contains(0x2f)
    &&& path == path_below(dir, name)
}

impl NativeString {
    /// The bytes of a text.
    pub fn from_text(text: &str) -> (s: NativeString)
        ensures
            s@ == encode_utf8(text@),
    {
        NativeString { bytes: text.as_bytes_vec() }
    }

    /// The text that the bytes are shown as.
    pub fn display(&self) -> (text: String)
        ensures
            text@ == shown_text(self@),
    {
        from_utf8_lossy(&self.bytes)
    }

    /// Whether two strings hold the same bytes.
    pub fn same(&self, other: &NativeString) -> (same: bool)
        ensures
            same == (self@ == other@),
    {
        if self.bytes.len() != other.bytes.len() {
            return false;
        }
        for i in 0..self.bytes.len()
            invariant
                self@.len() == other@.len(),
                forall|j: int| 0 <= j < i ==> #[trigger] self@[j] == other@[j],
        {
            if self.bytes[i] != other.bytes[i] {
                return false;
            }
        }
        assert(self@ =~= other@);
        true
    }

    /// The path of something below this directory.
    pub fn join(&self, name: &NativeString) -> (path: NativeString)
        ensures
            path@ == path_below(self@, name@),
    {
        if name.bytes.len() > 0 && name.bytes[0] == 0x2f {
            return name.clone();
        }
        let mut path = self.clone();
        let dir_len = path.bytes.len();
        if dir_len > 0 && path.bytes[dir_len - 1] != 0x2f {
            path.bytes.push(0x2f);
        }
        let ghost base = path@;
        for i in 0..name.bytes.len()
            invariant
                path@ == base + name@.take(i as int),
        {
            path.bytes.push(name.bytes[i]);
            assert(path@ =~= base + name@.take(i + 1));
        }
        assert(name@.take(name@.len() as int) =~= name@);
        path
    }

    /// The path of the entry with the given name.
    pub fn join_text(&self, name: &str) -> (path: NativeString)
        ensures
            path@ == path_below(self@, encode_utf8(name@)),
    {
        self.join(&NativeString::from_text(name))
    }

    /// The name of this path as an entry of the directory `dir`, if it is one.
    pub fn entry_name(&self, dir: &NativeString) -> (name: Option<NativeString>)
        ensures
            match name {
                Some(name) => is_entry(dir@, self@, name@),
                None => forall|name: Seq<u8>| !#[trigger] is_entry(dir@, self@, name),
            },
    {
        let mut prefix = dir.clone();
        let dir_len = prefix.bytes.len();
        if dir_len > 0 && prefix.bytes[dir_len - 1] != 0x2f {
            prefix.bytes.push(0x2f);
        }
        let start: usize = prefix.bytes.len();
        proof {
            assert forall|name: Seq<u8>| #[trigger] is_entry(dir@, self@, name) implies self@
                == prefix@ + name && name[0] != 0x2f by {
                if name[0] == 0x2f {
                    assert(name.contains(name[0]));
                }
            }
        }
        if self.bytes.len() <= start {
            return None;
        }
        for i in 0..start
            invariant
                start == prefix@.len(),
                start < self@.len(),
                forall|j: int| 0 <= j < i ==> #[trigger] self@[j] == prefix@[j],
                forall|name: Seq<u8>| #[trigger] is_entry(dir@, self@, name) ==> self@ == prefix@
                    + name && name[0] != 0x2f,
        {
            if self.bytes[i] != prefix.bytes[i] {
                assert forall|name: Seq<u8>| !#[trigger] is_entry(dir@, self@, name) by {
                    assert((prefix@ + name)[i as int] == prefix@[i as int]);
                }
                return None;
            }
        }
        let ghost tail = self@.skip(start as int);
        assert(self@ =~= prefix@ + tail);
        let mut bytes: Vec<u8> = Vec::new();
        for i in start..self.bytes.len()
            invariant
                start == prefix@.len(),
                tail == self@.skip(start as int),
                self@ == prefix@ + tail,
                bytes@ == tail.take(i - start),
                forall|j: int| 0 <= j < i - start ==> #[trigger] tail[j] != 0x2f,
                forall|name: Seq<u8>| #[trigger] is_entry(dir@, self@, name) ==> self@ == prefix@
                    + name && name[0] != 0x2f,
        {
            if self.bytes[i] == 0x2f {
                assert forall|name: Seq<u8>| !#[trigger] is_entry(dir@, self@, name) by {
                    if is_entry(dir@, self@, name) {
                        assert(name[i - start] == self@[i as int]);
                        assert(name.contains(0x2f));
                    }
                }
                return None;
            }
            bytes.push(self.bytes[i]);
            assert(bytes@ =~= tail.take(i + 1 - start));
        }
        assert(bytes@ =~= tail);
        assert(tail[0] != 0x2f);
        Some(NativeString { bytes })
    }
}

/// A text turned into bytes is shown as it was.
pub proof fn text_is_shown_unchanged(text: Seq<char>)
    ensures
        shown_text(encode_utf8(text)) == text,
{
    encode_utf8_valid_utf8(text);
    encode_utf8_decode_utf8(text);
}

} // verus!
