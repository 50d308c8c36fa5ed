use vstd::prelude::*;
use vstd::string::StringSliceAdditionalSpecFns;

use crate::error::{Error, ErrorKind};

verus! {

/// The bytes that the C library reads as the path `filepath`: its UTF-8
/// encoding followed by a terminating NUL.
pub open spec fn c_path(filepath: &str) -> Seq<u8> {
    filepath.spec_bytes().push(0u8)
}

/// The NUL-terminated bytes of `filepath`, as the C library takes a path, or
/// `None` where `filepath` itself holds a NUL byte and so cannot be passed.
pub fn c_string_bytes(filepath: &str) -> (r: Option<Vec<u8>>)
    ensures
        r is None <==> filepath.spec_bytes().contains(0u8),
        r matches Some(v) ==> v@ == c_path(filepath),
{
    let bytes = filepath.as_bytes();
    let mut out: Vec<u8> = Vec::new();
    let mut i: usize = 0;
    while i < bytes.len()
        invariant
            bytes@ == filepath.spec_bytes(),
            i <= bytes@.len(),
            out@ == bytes@.subrange(0, i as int),
            forall|j: int| 0 <= j < i ==> bytes@[j] != 0u8,
        decreases bytes@.len() - i,
    {
        let b: u8 = bytes[i];
        if b == 0 {
            assert(bytes@[i as int] == 0u8);
            return None;
        }
        out.push(b);
        i = i + 1;
        assert(out@ =~= bytes@.subrange(0, i as int));
    }
    assert(out@ =~= bytes@);
    out.push(0u8);
    Some(out)
}

/// A TensorFlow Lite model, held by the address of the model that the C
/// library created; that address is never null.
pub struct Model {
    model_ptr: usize,
}

impl Model {
    #[verifier::type_invariant]
    spec fn non_null(self) -> bool {
        self.model_ptr != 0
    }

    /// The address of the underlying C model.
    pub closed spec fn raw(self) -> usize {
        self.model_ptr
    }

    /// Wraps the handle that the C library returned for a model: a null
    /// handle means that it failed to load one.
    pub fn from_raw(model_ptr: usize) -> (r: Result<Model, Error>)
        ensures
            r is Ok <==> model_ptr != 0,
            r matches Ok(m) ==> m.raw() == model_ptr,
            r matches Err(e) ==> e.kind_of() == ErrorKind::FailedToLoadModel,
    {
        if model_ptr == 0 {
            Err(Error::new(ErrorKind::FailedToLoadModel))
        } else {
            Ok(Model { model_ptr })
        }
    }

    /// Loads a model from the file at `filepath`: `load` is handed the
    /// NUL-terminated bytes of the path and returns the handle of the model
    /// that the C library created from that file, null where it could not
    /// read one. Fails with [`ErrorKind::FailedToLoadModel`] exactly when the
    /// handle is null.
    pub fn new(filepath: &str, load: impl FnOnce(Vec<u8>) -> usize) -> (r: Result<Model, Error>)
        requires
            !filepath.spec_bytes().contains(0u8),
            forall|path: Vec<u8>| call_requires(load, (path,)),
        ensures
            exists|path: Vec<u8>, model_ptr: usize|
                #![trigger call_ensures(load, (path,), model_ptr)]
                {
                    &&& path@ == c_path(filepath)
                    &&& call_ensures(load, (path,), model_ptr)
                    &&& (r is Ok <==> model_ptr != 0)
                    &&& (r matches Ok(m) ==> m.raw() == model_ptr)
                    &&& (r matches Err(e) ==> e.kind_of() == ErrorKind::FailedToLoadModel)
                },
    {
        let path = match c_string_bytes(filepath) {
            Some(path) => path,
            None => {
                assert(false);
                Vec::new()
            },
        };
        let model_ptr = load(path);
        Self::from_raw(model_ptr)
    }

    /// Returns the address of the underlying C model, which is never null.
    pub fn raw_handle(&self) -> (h: usize)
        ensures
            h == self.raw(),
            h != 0,
    {
        proof {
            use_type_invariant(self);
        }
        self.model_ptr
    }
}

} // verus!
