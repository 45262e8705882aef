//! Reading tensor data stored outside the model: the checks on the
//! reference and on the file, around the reading that the caller does.
use super::codec::{decode_raw_data, outcome, spec_decode_raw, ProtoCodecError, ProtoCodecErrorSpec};
use crate::ir::{ExternalData, ExternalDataSpec, Tensor, TensorSpec, TensorStorage, TensorStorageSpec};
use crate::text::{concat, decimal, u64_to_string};
use vstd::prelude::*;

verus! {

/// The external data reference of a tensor; a tensor with inline data has
/// none.
pub open spec fn spec_external_reference(t: TensorSpec) -> Result<
    ExternalDataSpec,
    ProtoCodecErrorSpec,
> {
    match t.data {
        TensorStorageSpec::External(e) => Ok(e),
        TensorStorageSpec::Inline(_) => Err(
            ProtoCodecErrorSpec::InvalidExternalData {
                name: t.name,
                detail: "tensor does not reference external data"@,
            },
        ),
    }
}

/// The external data reference of a tensor.
pub fn external_reference(t: &Tensor) -> (r: Result<&ExternalData, ProtoCodecError>)
    ensures
        match spec_external_reference(t.deep_view()) {
            Ok(e) => r matches Ok(x) && x.deep_view() == e,
            Err(e) => r matches Err(x) && x.deep_view() == e,
        },
{
    match &t.data {
        TensorStorage::External(e) => Ok(e),
        TensorStorage::Inline(_) => Err(
            ProtoCodecError::InvalidExternalData {
                name: t.name.clone(),
                detail: String::from_str("tensor does not reference external data"),
            },
        ),
    }
}

/// The bytes to read for an external data reference from a file of
/// `file_len` bytes, as an offset and a length: the offset defaults to the
/// start and must lie within the file, the length defaults to the rest of
/// the file and must fit in it.
pub open spec fn spec_external_range(name: Seq<char>, e: ExternalDataSpec, file_len: u64) -> Result<
    (u64, u64),
    ProtoCodecErrorSpec,
> {
    let offset: u64 = match e.offset {
        Some(o) => o,
        None => 0,
    };
    if offset > file_len {
        Err(
            ProtoCodecErrorSpec::InvalidExternalData {
                name,
                detail: "offset "@ + decimal(offset as nat) + " beyond file length "@ + decimal(
                    file_len as nat,
                ),
            },
        )
    } else {
        let avail = (file_len - offset) as u64;
        match e.length {
            Some(l) => if l > avail {
                Err(
                    ProtoCodecErrorSpec::InvalidExternalData {
                        name,
                        detail: "length "@ + decimal(l as nat) + " exceeds remaining file bytes "@
                            + decimal(avail as nat),
                    },
                )
            } else {
                Ok((offset, l))
            },
            None => Ok((offset, avail)),
        }
    }
}

/// The bytes to read for an external data reference of the tensor `name`
/// from a file of `file_len` bytes.
pub fn external_range(name: &str, e: &ExternalData, file_len: u64) -> (r: Result<
    (u64, u64),
    ProtoCodecError,
>)
    ensures
        match spec_external_range(name@, e.deep_view(), file_len) {
            Ok(range) => r == Ok::<(u64, u64), ProtoCodecError>(range),
            Err(x) => r matches Err(y) && y.deep_view() == x,
        },
{
    let offset: u64 = match e.offset {
        Some(o) => o,
        None => 0,
    };
    if offset > file_len {
        let d = concat("offset ", u64_to_string(offset).as_str());
        let d = concat(d.as_str(), " beyond file length ");
        let d = concat(d.as_str(), u64_to_string(file_len).as_str());
        return Err(ProtoCodecError::InvalidExternalData { name: String::from_str(name), detail: d });
    }
    let avail = file_len - offset;
    match e.length {
        Some(l) => {
            if l > avail {
                let d = concat("length ", u64_to_string(l).as_str());
                let d = concat(d.as_str(), " exceeds remaining file bytes ");
                let d = concat(d.as_str(), u64_to_string(avail).as_str());
                return Err(
                    ProtoCodecError::InvalidExternalData { name: String::from_str(name), detail: d },
                );
            }
            Ok((offset, l))
        },
        None => Ok((offset, avail)),
    }
}

/// The tensor with its data read from the bytes of its external data.
pub open spec fn spec_with_external_bytes(t: TensorSpec, bytes: Seq<u8>) -> Result<
    TensorSpec,
    ProtoCodecErrorSpec,
> {
    match spec_decode_raw(t.elem, bytes, t.name) {
        Ok(d) => Ok(TensorSpec { data: TensorStorageSpec::Inline(d), ..t }),
        Err(e) => Err(e),
    }
}

/// The tensor with its data read from the bytes of its external data, read
/// as `raw_data` is.
pub fn with_external_bytes(t: &Tensor, bytes: &[u8]) -> (r: Result<Tensor, ProtoCodecError>)
    ensures
        outcome(r, spec_with_external_bytes(t.deep_view(), bytes@)),
{
    match decode_raw_data(t.elem, bytes, t.name.as_str()) {
        Ok(data) => {
            let shape = t.shape.clone();
            proof {
                assert(shape.deep_view() =~= t.shape.deep_view());
            }
            Ok(
            Tensor {
                name: t.name.clone(),
                elem: t.elem,
                shape,
                data: TensorStorage::Inline(data),
                doc_string: t.doc_string.clone(),
            },
        )
        },
        Err(e) => Err(e),
    }
}

/// A component of a path as the platform reads it.
#[derive(Debug, Clone, PartialEq)]
pub enum PathPart {
    /// A drive or share prefix, with its `Debug` text.
    Prefix(String),
    /// The root directory.
    RootDir,
    /// The current directory, `.`.
    CurDir,
    /// The parent directory, `..`.
    ParentDir,
    /// A plain name.
    Normal,
}

/// The text by which an unsafe component is reported; none for a plain
/// name.
pub open spec fn unsafe_text(p: PathPart) -> Option<Seq<char>> {
    match p {
        PathPart::Prefix(t) => Some(t@),
        PathPart::RootDir => Some("RootDir"@),
        PathPart::CurDir => Some("CurDir"@),
        PathPart::ParentDir => Some("ParentDir"@),
        PathPart::Normal => None,
    }
}

/// The first component of a path that is not a plain name, by its text.
pub open spec fn first_unsafe(parts: Seq<PathPart>) -> Option<Seq<char>>
    decreases parts.len(),
{
    if parts.len() == 0 {
        None
    } else if unsafe_text(parts[0]) is Some {
        unsafe_text(parts[0])
    } else {
        first_unsafe(parts.drop_first())
    }
}

/// A path has a component other than a plain name exactly when one is
/// reported.
proof fn lemma_first_unsafe(parts: Seq<PathPart>)
    ensures
        first_unsafe(parts) is None <==> forall|i: int| 0 <= i < parts.len() ==> #[trigger] parts[i] is Normal,
    decreases parts.len(),
{
    if parts.len() > 0 {
        lemma_first_unsafe(parts.drop_first());
        if first_unsafe(parts) is None {
            assert forall|i: int| 0 <= i < parts.len() implies #[trigger] parts[i] is Normal by {
                if i > 0 {
                    assert(parts[i] == parts.drop_first()[i - 1]);
                }
            }
        } else if unsafe_text(parts[0]) is None {
            let k = choose|i: int| 0 <= i < parts.len() - 1 && !(#[trigger] parts.drop_first()[i] is Normal);
            assert(parts.drop_first()[k] == parts[k + 1]);
        }
    }
}

/// The checks on the location of external data, given whether the
/// platform reads it as an absolute path and its components: the location
/// must be a relative path of plain names.
pub open spec fn spec_location_check(
    location: Seq<char>,
    absolute: bool,
    parts: Seq<PathPart>,
) -> Result<(), ProtoCodecErrorSpec> {
    if location.len() == 0 {
        Err(
            ProtoCodecErrorSpec::InvalidExternalData {
                name: Seq::empty(),
                detail: "empty external data location"@,
            },
        )
    } else if absolute {
        Err(
            ProtoCodecErrorSpec::InvalidExternalData {
                name: location,
                detail: "external data location must be relative"@,
            },
        )
    } else {
        match first_unsafe(parts) {
            Some(c) => Err(
                ProtoCodecErrorSpec::InvalidExternalData {
                    name: location,
                    detail: "external data location contains unsafe component "@ + c,
                },
            ),
            None => Ok(()),
        }
    }
}

/// Whether `r` is the outcome `s` of a check.
pub open spec fn check_outcome(r: Result<(), ProtoCodecError>, s: Result<(), ProtoCodecErrorSpec>) -> bool {
    match s {
        Ok(()) => r is Ok,
        Err(e) => r matches Err(x) && x.deep_view() == e,
    }
}

/// The text by which an unsafe component is reported.
fn part_text(p: &PathPart) -> (r: Option<String>)
    ensures
        match unsafe_text(*p) {
            Some(t) => r matches Some(x) && x@ == t,
            None => r is None,
        },
{
    match p {
        PathPart::Prefix(t) => Some(t.clone()),
        PathPart::RootDir => Some(String::from_str("RootDir")),
        PathPart::CurDir => Some(String::from_str("CurDir")),
        PathPart::ParentDir => Some(String::from_str("ParentDir")),
        PathPart::Normal => None,
    }
}

/// The checks on the location of external data, given whether the
/// platform reads it as an absolute path and its components.
pub fn location_check(location: &str, absolute: bool, parts: &Vec<PathPart>) -> (r: Result<
    (),
    ProtoCodecError,
>)
    ensures
        check_outcome(r, spec_location_check(location@, absolute, parts@)),
{
    if location.unicode_len() == 0 {
        return Err(
            ProtoCodecError::InvalidExternalData {
                name: String::new(),
                detail: String::from_str("empty external data location"),
            },
        );
    }
    if absolute {
        return Err(
            ProtoCodecError::InvalidExternalData {
                name: String::from_str(location),
                detail: String::from_str("external data location must be relative"),
            },
        );
    }
    let ghost ps = parts@;
    proof {
        assert(ps.skip(0) =~= ps);
    }
    let mut i: usize = 0;
    while i < parts.len()
        invariant
            0 <= i <= parts@.len(),
            ps == parts@,
            location@.len() != 0,
            !absolute,
            first_unsafe(ps) == first_unsafe(ps.skip(i as int)),
        decreases parts@.len() - i,
    {
        proof {
            assert(ps.skip(i as int)[0] == ps[i as int]);
        }
        match part_text(&parts[i]) {
            Some(c) => {
                let d = concat("external data location contains unsafe component ", c.as_str());
                let name = String::from_str(location);
                return Err(ProtoCodecError::InvalidExternalData { name, detail: d });
            },
            None => {
                proof {
                    assert(ps.skip(i as int).drop_first() =~= ps.skip(i + 1));
                }
            },
        }
        i = i + 1;
    }
    proof {
        assert(ps.skip(i as int) =~= Seq::<PathPart>::empty());
    }
    Ok(())
}

/// Whether `location` has a segment `..`, between `/` separators or at
/// either end.
pub open spec fn has_parent_segment(location: Seq<char>) -> bool {
    exists|i: int|
        0 <= i && i + 2 <= location.len() && #[trigger] location[i] == '.' && location[i + 1] == '.'
            && (i == 0 || location[i - 1] == '/') && (i + 2 == location.len() || location[
            i + 2
        ] == '/')
}

/// Whether `location` starts at the root, with a `/`.
pub open spec fn starts_at_root(location: Seq<char>) -> bool {
    location.len() > 0 && location[0] == '/'
}

/// Whether `location` holds no `\`, which some platforms read as a
/// separator or as the start of a verbatim prefix.
pub open spec fn no_backslash(location: Seq<char>) -> bool {
    forall|i: int| 0 <= i < location.len() ==> location[i] != '\\'
}

/// Whether the platform reads `location` as an absolute path.
///
/// Calls `Path::is_absolute`, whose answer depends on the platform; nothing
/// is stated of it.
#[verifier::external_body]
fn path_is_absolute(location: &str) -> (r: bool) {
    std::path::Path::new(location).is_absolute()
}

/// The components of `location` read as a path on this platform, each
/// converted to the [`PathPart`] of the same kind.
///
/// Calls `Path::components`. How a path splits depends on the platform;
/// what holds on every platform, as std documents it, is stated: `/` is a
/// separator, a `..` segment is a parent-directory component, and a path
/// that starts with `/` starts with a root or prefix component. Both are
/// stated only of locations without `\`.
#[verifier::external_body]
fn path_components(location: &str) -> (r: Vec<PathPart>)
    ensures
        no_backslash(location@) && (has_parent_segment(location@) || starts_at_root(location@))
            ==> exists|i: int| 0 <= i < r@.len() && !(#[trigger] r@[i] is Normal),
{
    std::path::Path::new(location).components().map(
        |c| match c {
            other @ std::path::Component::Prefix(_) => PathPart::Prefix(format!("{other:?}")),
            std::path::Component::RootDir => PathPart::RootDir,
            std::path::Component::CurDir => PathPart::CurDir,
            std::path::Component::ParentDir => PathPart::ParentDir,
            std::path::Component::Normal(_) => PathPart::Normal,
        },
    ).collect()
}

/// Checks that the location of external data is a relative path of plain
/// names, as this platform reads paths. An empty location, and a location
/// without `\` that has a `..` segment or starts with `/`, are refused on
/// every platform.
pub fn check_external_location(location: &str) -> (r: Result<(), ProtoCodecError>)
    ensures
        exists|absolute: bool, parts: Seq<PathPart>|
            check_outcome(r, #[trigger] spec_location_check(location@, absolute, parts)),
        location@.len() == 0 ==> check_outcome(r, spec_location_check(location@, false, Seq::empty())),
        no_backslash(location@) && (has_parent_segment(location@) || starts_at_root(location@))
            ==> (r matches Err(e) && e is InvalidExternalData),
{
    let absolute = path_is_absolute(location);
    let parts = path_components(location);
    let r = location_check(location, absolute, &parts);
    proof {
        lemma_first_unsafe(parts@);
        assert(check_outcome(r, spec_location_check(location@, absolute, parts@)));
    }
    r
}

} // verus!
