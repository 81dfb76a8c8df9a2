//! Sizes of the local state-space language model, and the published
//! checkpoints it can be loaded from.

use vstd::prelude::*;

verus! {

/// The model's shape as its configuration file gives it.
#[derive(Debug, Clone, Copy)]
pub struct Config {
    pub d_model: usize,
    pub n_layer: usize,
    pub vocab_size: usize,
    pub pad_vocab_size_multiple: usize,
}

impl Config {
    /// The vocabulary size rounded up to a multiple of the padding.
    pub fn vocab_size(&self) -> (r: usize)
        requires
            self.pad_vocab_size_multiple > 0,
            self.vocab_size + self.pad_vocab_size_multiple - 1 <= usize::MAX,
        ensures
            r % self.pad_vocab_size_multiple == 0,
            self.vocab_size <= r < self.vocab_size + self.pad_vocab_size_multiple,
    {
        let pad = self.pad_vocab_size_multiple;
        let v = self.vocab_size;
        let x = v + (pad - 1);
        let q = x / pad;
        proof {
            let p = pad as int;
            let xi = x as int;
            let qi = q as int;
            assert(xi == p * qi + xi % p && 0 <= xi % p < p) by (nonlinear_arith)
                requires
                    p > 0,
                    qi == xi / p,
            ;
            assert((qi * p) % p == 0) by (nonlinear_arith)
                requires
                    p > 0,
            ;
            assert(qi * p == p * qi) by (nonlinear_arith);
        }
        q * pad
    }

    /// The rank of the step-size projection: the model width over sixteen,
    /// rounded up.
    pub fn dt_rank(&self) -> (r: usize)
        requires
            self.d_model + 15 <= usize::MAX,
        ensures
            r == (self.d_model + 15) / 16,
    {
        (self.d_model + 15) / 16
    }

    /// The width of the causal convolution.
    pub fn d_conv(&self) -> (r: usize)
        ensures
            r == 4,
    {
        4
    }

    /// The size of the state of each channel.
    pub fn d_state(&self) -> (r: usize)
        ensures
            r == 16,
    {
        16
    }

    /// The inner width: twice the model width.
    pub fn d_inner(&self) -> (r: usize)
        requires
            self.d_model * 2 <= usize::MAX,
        ensures
            r == self.d_model * 2,
    {
        self.d_model * 2
    }
}

/// The published checkpoints.
#[derive(PartialEq, Eq, Structural, Clone, Copy, Debug)]
pub enum Which {
    Mamba130m,
    Mamba370m,
    Mamba790m,
    Mamba1_4b,
    Mamba2_8b,
    Mamba2_8bSlimPj,
}

impl Which {
    /// The repository that holds the checkpoint.
    pub fn model_id(&self) -> (r: &'static str)
        ensures
            r@ == match self {
                Which::Mamba130m => "state-spaces/mamba-130m"@,
                Which::Mamba370m => "state-spaces/mamba-370m"@,
                Which::Mamba790m => "state-spaces/mamba-790m"@,
                Which::Mamba1_4b => "state-spaces/mamba-1.4b"@,
                Which::Mamba2_8b => "state-spaces/mamba-2.8b"@,
                Which::Mamba2_8bSlimPj => "state-spaces/mamba-2.8b-slimpj'"@,
            },
    {
        match self {
            Which::Mamba130m => "state-spaces/mamba-130m",
            Which::Mamba370m => "state-spaces/mamba-370m",
            Which::Mamba790m => "state-spaces/mamba-790m",
            Which::Mamba1_4b => "state-spaces/mamba-1.4b",
            Which::Mamba2_8b => "state-spaces/mamba-2.8b",
            Which::Mamba2_8bSlimPj => "state-spaces/mamba-2.8b-slimpj'",
        }
    }

    /// The revision of that repository to load.
    pub fn revision(&self) -> (r: &'static str)
        ensures
            r@ == (if *self == Which::Mamba2_8b {
                "refs/pr/4"@
            } else {
                "refs/pr/1"@
            }),
    {
        match self {
            Which::Mamba2_8b => "refs/pr/4",
            _ => "refs/pr/1",
        }
    }

    /// The variant's name, as it is printed.
    pub fn name(&self) -> (r: &'static str)
        ensures
            r@ == match self {
                Which::Mamba130m => "Mamba130m"@,
                Which::Mamba370m => "Mamba370m"@,
                Which::Mamba790m => "Mamba790m"@,
                Which::Mamba1_4b => "Mamba1_4b"@,
                Which::Mamba2_8b => "Mamba2_8b"@,
                Which::Mamba2_8bSlimPj => "Mamba2_8bSlimPj"@,
            },
    {
        match self {
            Which::Mamba130m => "Mamba130m",
            Which::Mamba370m => "Mamba370m",
            Which::Mamba790m => "Mamba790m",
            Which::Mamba1_4b => "Mamba1_4b",
            Which::Mamba2_8b => "Mamba2_8b",
            Which::Mamba2_8bSlimPj => "Mamba2_8bSlimPj",
        }
    }
}

} // verus!
