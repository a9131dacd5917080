use vstd::prelude::*;

verus! {

/// A storage body with a name attached.
///
/// Typically, `T` is the raw storage of a plain or of a keyed histogram;
/// this type treats it as opaque. The name doubles as a registry key and
/// must be unique there; uniqueness is enforced by the registry that
/// collects these values, not by this type.
pub struct NamedStorage<T> {
    /// The name of the storage. Also used as a key, must be unique.
    pub name: String,
    /// The owned storage body.
    pub contents: Box<T>,
}

/// A subset of data to serialize.
pub enum Subset {
    /// Serialize all plain histograms.
    AllPlain,
    /// Serialize all keyed histograms.
    AllKeyed,
}

/// A subformat of Json to use for serialization.
pub enum SerializationFormat {
    /// Simple Json:
    /// - flags are represented as a single boolean;
    /// - keyed flags are represented as an array;
    /// - linear histograms are represented as an array of numbers, one cell
    ///   per bucket;
    /// - keyed linear histograms are represented as an object, one field per
    ///   histogram, with name = key and value = an array of numbers as for a
    ///   linear histogram.
    SimpleJson,
}

} // verus!
