//! Model parameters and the metadata of a loaded model.

use vstd::prelude::*;
use vstd::string::*;
use crate::error::ForgeError;

verus! {

/// Parameters for loading a model.
#[derive(Debug, Clone, Copy)]
pub struct ModelParams {
    /// Number of layers to offload to GPU (0 = CPU only, -1 = all)
    pub n_gpu_layers: i32,
    /// Use memory mapping for model file
    pub use_mmap: bool,
    /// Lock model in memory
    pub use_mlock: bool,
    /// Only load vocabulary (for tokenization)
    pub vocab_only: bool,
}

impl Default for ModelParams {
    fn default() -> (r: Self)
        ensures
            r.n_gpu_layers == -1,
            r.use_mmap,
            !r.use_mlock,
            !r.vocab_only,
    {
        ModelParams { n_gpu_layers: -1, use_mmap: true, use_mlock: false, vocab_only: false }
    }
}

/// A loaded model, as the library sees it: the path it was loaded from and
/// the metadata the native model reports (vocabulary size, training
/// context, tensor size, special tokens). The native handle itself stays
/// with the caller.
#[derive(Debug)]
pub struct LlamaModel {
    path: String,
    n_vocab: i32,
    n_ctx_train: i32,
    tensor_bytes: usize,
    token_bos: i32,
    token_eos: i32,
    token_eot: i32,
}

impl LlamaModel {
    /// The model file path.
    pub closed spec fn spec_path(&self) -> Seq<char> {
        self.path@
    }

    /// Vocabulary size.
    pub closed spec fn spec_n_vocab(&self) -> i32 {
        self.n_vocab
    }

    /// Training context size.
    pub closed spec fn spec_n_ctx_train(&self) -> i32 {
        self.n_ctx_train
    }

    /// Bytes occupied by the model tensors.
    pub closed spec fn spec_tensor_bytes(&self) -> usize {
        self.tensor_bytes
    }

    /// Special tokens: beginning of sequence, end of sequence, end of turn.
    pub closed spec fn spec_special_tokens(&self) -> (i32, i32, i32) {
        (self.token_bos, self.token_eos, self.token_eot)
    }

    /// Describe a model loaded from `path` with the metadata it reports.
    pub fn new(
        path: String,
        n_vocab: i32,
        n_ctx_train: i32,
        tensor_bytes: usize,
        token_bos: i32,
        token_eos: i32,
        token_eot: i32,
    ) -> (r: Self)
        ensures
            r.spec_path() == path@,
            r.spec_n_vocab() == n_vocab,
            r.spec_n_ctx_train() == n_ctx_train,
            r.spec_tensor_bytes() == tensor_bytes,
            r.spec_special_tokens() == (token_bos, token_eos, token_eot),
    {
        LlamaModel { path, n_vocab, n_ctx_train, tensor_bytes, token_bos, token_eos, token_eot }
    }

    /// Get the model file path.
    pub fn path(&self) -> (r: &str)
        ensures
            r@ == self.spec_path(),
    {
        self.path.as_str()
    }

    /// Get the vocabulary size.
    pub fn n_vocab(&self) -> (r: i32)
        ensures
            r == self.spec_n_vocab(),
    {
        self.n_vocab
    }

    /// Get the training context size.
    pub fn n_ctx_train(&self) -> (r: i32)
        ensures
            r == self.spec_n_ctx_train(),
    {
        self.n_ctx_train
    }

    /// Total bytes occupied by model tensors across backends.
    pub fn tensor_bytes(&self) -> (r: usize)
        ensures
            r == self.spec_tensor_bytes(),
    {
        self.tensor_bytes
    }

    /// Get the beginning-of-sequence token.
    pub fn token_bos(&self) -> (r: i32)
        ensures
            r == self.spec_special_tokens().0,
    {
        self.token_bos
    }

    /// Get the end-of-sequence token.
    pub fn token_eos(&self) -> (r: i32)
        ensures
            r == self.spec_special_tokens().1,
    {
        self.token_eos
    }

    /// Get the end-of-turn token.
    pub fn token_eot(&self) -> (r: i32)
        ensures
            r == self.spec_special_tokens().2,
    {
        self.token_eot
    }
}

/// Index of the first NUL byte in `b`, if there is one.
pub open spec fn first_nul(b: Seq<u8>) -> Option<int> {
    if exists|i: int| 0 <= i < b.len() && b[i] == 0 {
        Some(choose|i: int| 0 <= i < b.len() && b[i] == 0 && forall|j: int| 0 <= j < i ==> b[j] != 0)
    } else {
        None
    }
}

/// Check that `s` can be passed as a C string (it holds no NUL byte); a
/// string that cannot gives `CStringError` with the position of its first
/// NUL byte.
pub fn check_c_string(s: &str) -> (r: Result<(), ForgeError>)
    ensures
        match first_nul(s.spec_bytes()) {
            None => r is Ok,
            Some(i) => r == Err::<(), ForgeError>(ForgeError::CStringError { nul_position: i as usize }),
        },
{
    let bytes = s.as_bytes();
    let mut i: usize = 0;
    while i < bytes.len()
        invariant
            i <= bytes@.len(),
            bytes@ == s.spec_bytes(),
            forall|j: int| 0 <= j < i ==> bytes@[j] != 0,
        decreases bytes@.len() - i,
    {
        if bytes[i] == 0 {
            proof {
                let b = s.spec_bytes();
                assert(0 <= i < b.len() && b[i as int] == 0 && forall|j: int| 0 <= j < i ==> b[j] != 0);
                let k = choose|k: int| 0 <= k < b.len() && b[k] == 0 && forall|j: int| 0 <= j < k ==> b[j] != 0;
                assert(k == i) by {
                    if k < i {
                        assert(b[k] != 0);
                    }
                    if k > i {
                        assert(b[i as int] != 0);
                    }
                }
            }
            return Err(ForgeError::CStringError { nul_position: i });
        }
        i = i + 1;
    }
    Ok(())
}

} // verus!
