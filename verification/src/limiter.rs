//! The memory limiter: a policy that bounds the linear memory of every module
//! compiled or instantiated under it.
//!
//! A request without a declared maximum is given the configured limit as its
//! maximum, and a request whose minimum or maximum lies above the limit is
//! turned away before any memory is made.

use vstd::prelude::*;

verus! {

/// The largest number of pages that the bytecode format itself can address.
pub const WASM_MAX_PAGES: u32 = 0x10000;

/// The limit under which modules are compiled ahead of time: one page above
/// what the format can address, so that the format's own ceiling never
/// decides and every memory without a declared maximum is given a maximum
/// that no static reservation can hold.
pub const COMPILE_LIMIT: u32 = 0x10001;

/// What a module asks of a linear memory, in pages of 64 KiB.
#[derive(Clone, Copy, Debug, PartialEq, Eq)]
pub struct MemoryRequest {
    /// The number of pages the memory starts with.
    pub minimum: u32,
    /// The number of pages the memory may grow to, if the module declares one.
    pub maximum: Option<u32>,
    /// Whether several threads may share the memory.
    pub shared: bool,
}

/// Which of a request's two bounds lies above the limit.
#[derive(Clone, Copy, Debug, PartialEq, Eq)]
pub enum ExceededBound {
    Minimum,
    Maximum,
}

/// Why the limiter turns a request away.
#[derive(Clone, Copy, Debug, PartialEq, Eq)]
pub enum MemoryLimitError {
    /// The minimum or the declared maximum lies above the limit.
    LimitExceeded(ExceededBound),
    /// The request has no maximum at all.
    MaximumUnset,
}

/// The allocation strategy of a linear memory.
#[derive(Clone, Copy, Debug, PartialEq, Eq)]
pub enum MemoryStyle {
    /// The memory can be resized and moved.
    Dynamic { offset_guard_size: u64 },
    /// The address space is reserved up front.
    Static { bound: u32, offset_guard_size: u64 },
}

/// The parameters of the underlying allocation policy.
#[derive(Clone, Copy, Debug, PartialEq, Eq)]
pub struct BaseBounds {
    /// For static memories, the pages of address space reserved up front.
    pub static_memory_bound: u32,
    /// The size in bytes of the guard region behind a static memory.
    pub static_memory_offset_guard_size: u64,
    /// The size in bytes of the guard region behind a dynamic memory.
    pub dynamic_memory_offset_guard_size: u64,
}

/// The request as the limiter hands it on: a missing maximum becomes `limit`,
/// everything else stays.
pub open spec fn adjusted(limit: u32, requested: MemoryRequest) -> MemoryRequest {
    MemoryRequest {
        minimum: requested.minimum,
        maximum: match requested.maximum {
            Some(max) => Some(max),
            None => Some(limit),
        },
        shared: requested.shared,
    }
}

/// The limiter's verdict on a request. The minimum is looked at first.
pub open spec fn validated(limit: u32, ty: MemoryRequest) -> Result<(), MemoryLimitError> {
    if ty.minimum > limit {
        Err(MemoryLimitError::LimitExceeded(ExceededBound::Minimum))
    } else {
        match ty.maximum {
            Some(max) => if max > limit {
                Err(MemoryLimitError::LimitExceeded(ExceededBound::Maximum))
            } else {
                Ok(())
            },
            None => Err(MemoryLimitError::MaximumUnset),
        }
    }
}

/// What becomes of a request submitted to the limiter: it is adjusted, and the
/// adjusted request is validated.
pub open spec fn admitted(limit: u32, requested: MemoryRequest) -> Result<
    MemoryRequest,
    MemoryLimitError,
> {
    match validated(limit, adjusted(limit, requested)) {
        Ok(()) => Ok(adjusted(limit, requested)),
        Err(e) => Err(e),
    }
}

/// The style the underlying policy picks: static where the maximum fits the
/// static bound, dynamic otherwise. A request without a maximum counts as one
/// that asks for everything the format can address.
pub open spec fn base_style(base: BaseBounds, memory: MemoryRequest) -> MemoryStyle {
    let maximum = match memory.maximum {
        Some(max) => max,
        None => WASM_MAX_PAGES,
    };
    if maximum <= base.static_memory_bound {
        MemoryStyle::Static {
            bound: base.static_memory_bound,
            offset_guard_size: base.static_memory_offset_guard_size,
        }
    } else {
        MemoryStyle::Dynamic { offset_guard_size: base.dynamic_memory_offset_guard_size }
    }
}

/// The style of a memory under the limiter. The underlying policy is asked
/// about the adjusted request, and its answer stands where it is dynamic; a
/// static answer is overruled, so that no memory is reserved up front,
/// whatever the module declares.
pub open spec fn limited_style(base: BaseBounds, limit: u32, memory: MemoryRequest) -> MemoryStyle {
    match base_style(base, adjusted(limit, memory)) {
        MemoryStyle::Dynamic { offset_guard_size } => MemoryStyle::Dynamic { offset_guard_size },
        MemoryStyle::Static { .. } => MemoryStyle::Dynamic {
            offset_guard_size: base.dynamic_memory_offset_guard_size,
        },
    }
}

impl MemoryLimitError {
    /// The words that describe the error.
    pub open spec fn spec_message(self) -> Seq<char> {
        match self {
            MemoryLimitError::LimitExceeded(ExceededBound::Minimum) => {
                "Minimum exceeds the allowed memory limit"@
            },
            MemoryLimitError::LimitExceeded(ExceededBound::Maximum) => {
                "Maximum exceeds the allowed memory limit"@
            },
            MemoryLimitError::MaximumUnset => "Maximum unset"@,
        }
    }

    /// The words that describe the error, for a caller that reports it as text.
    pub fn message(&self) -> (text: String)
        ensures
            text@ == self.spec_message(),
    {
        match self {
            MemoryLimitError::LimitExceeded(ExceededBound::Minimum) => {
                "Minimum exceeds the allowed memory limit".to_owned()
            },
            MemoryLimitError::LimitExceeded(ExceededBound::Maximum) => {
                "Maximum exceeds the allowed memory limit".to_owned()
            },
            MemoryLimitError::MaximumUnset => "Maximum unset".to_owned(),
        }
    }
}

/// Calls `BaseTunables::memory_style` of wasmer on the given bounds and
/// request. The contract restates the function's body: the style is static,
/// with the bound and guard size of the bounds, where the request's maximum (or
/// `Pages::max_value()`, 65536 pages, where it has none) is at most the static
/// bound, and dynamic with the dynamic guard size otherwise.
#[verifier::external_body]
fn base_memory_style(base: &BaseBounds, memory: &MemoryRequest) -> (style: MemoryStyle)
    ensures
        style == base_style(*base, *memory),
{
    let tunables = wasmer::BaseTunables {
        static_memory_bound: wasmer::Pages(base.static_memory_bound),
        static_memory_offset_guard_size: base.static_memory_offset_guard_size,
        dynamic_memory_offset_guard_size: base.dynamic_memory_offset_guard_size,
    };
    let ty = wasmer::MemoryType::new(memory.minimum, memory.maximum, memory.shared);
    match wasmer::Tunables::memory_style(&tunables, &ty) {
        wasmer::vm::MemoryStyle::Dynamic { offset_guard_size } => {
            MemoryStyle::Dynamic { offset_guard_size }
        },
        wasmer::vm::MemoryStyle::Static { bound, offset_guard_size } => {
            MemoryStyle::Static { bound: bound.0, offset_guard_size }
        },
    }
}

/// The limiter: the policy of an underlying allocation provider, with a hard
/// ceiling on every memory.
#[derive(Clone, Copy, Debug, PartialEq, Eq)]
pub struct LimitingTunables {
    limit: u32,
    base: BaseBounds,
}

impl LimitingTunables {
    /// The configured ceiling, in pages.
    pub closed spec fn spec_limit(&self) -> u32 {
        self.limit
    }

    /// The parameters of the underlying provider.
    pub closed spec fn spec_base(&self) -> BaseBounds {
        self.base
    }

    /// A limiter over the provider `base` that lets no memory grow beyond
    /// `limit` pages.
    pub fn new(base: BaseBounds, limit: u32) -> (tunables: Self)
        ensures
            tunables.spec_limit() == limit,
            tunables.spec_base() == base,
    {
        Self { limit, base }
    }

    /// The limiter under which modules are compiled ahead of time.
    pub fn for_compilation(base: BaseBounds) -> (tunables: Self)
        ensures
            tunables.spec_limit() == COMPILE_LIMIT,
            tunables.spec_base() == base,
    {
        Self { limit: COMPILE_LIMIT, base }
    }

    /// The configured ceiling, in pages.
    #[verifier::when_used_as_spec(spec_limit)]
    pub fn limit(&self) -> (limit: u32)
        ensures
            limit == self.spec_limit(),
    {
        self.limit
    }

    /// The parameters of the underlying provider.
    #[verifier::when_used_as_spec(spec_base)]
    pub fn base(&self) -> (base: BaseBounds)
        ensures
            base == self.spec_base(),
    {
        self.base
    }

    /// Gives a request without a maximum the limit as its maximum. A declared
    /// maximum is left as it is, also where it lies above the limit.
    pub fn adjust_memory(&self, requested: &MemoryRequest) -> (adjusted_request: MemoryRequest)
        ensures
            adjusted_request == adjusted(self.spec_limit(), *requested),
    {
        let mut adjusted_request = *requested;
        if requested.maximum.is_none() {
            adjusted_request.maximum = Some(self.limit);
        }
        adjusted_request
    }

    /// Checks a request against the limit.
    pub fn validate_memory(&self, ty: &MemoryRequest) -> (verdict: Result<(), MemoryLimitError>)
        ensures
            verdict == validated(self.spec_limit(), *ty),
    {
        if ty.minimum > self.limit {
            return Err(MemoryLimitError::LimitExceeded(ExceededBound::Minimum));
        }
        if let Some(max) = ty.maximum {
            if max > self.limit {
                return Err(MemoryLimitError::LimitExceeded(ExceededBound::Maximum));
            }
        } else {
            return Err(MemoryLimitError::MaximumUnset);
        }
        Ok(())
    }

    /// Decides whether a memory may be made for a request: the request is
    /// adjusted, then validated. On `Ok` the adjusted request is what the
    /// underlying provider is to build; on `Err` nothing is to be built.
    pub fn admit_memory(&self, ty: &MemoryRequest) -> (verdict: Result<
        MemoryRequest,
        MemoryLimitError,
    >)
        ensures
            verdict == admitted(self.spec_limit(), *ty),
    {
        let adjusted_request = self.adjust_memory(ty);
        match self.validate_memory(&adjusted_request) {
            Ok(()) => Ok(adjusted_request),
            Err(e) => Err(e),
        }
    }

    /// The style of a memory under the limiter: always the dynamic one, with
    /// the guard size that the underlying provider gives dynamic memories.
    /// The provider is asked about the adjusted request, and where it answers
    /// with the static style it is overruled.
    pub fn memory_style(&self, memory: &MemoryRequest) -> (style: MemoryStyle)
        ensures
            style == limited_style(self.spec_base(), self.spec_limit(), *memory),
            style == (MemoryStyle::Dynamic {
                offset_guard_size: self.spec_base().dynamic_memory_offset_guard_size,
            }),
    {
        let adjusted_request = self.adjust_memory(memory);
        match base_memory_style(&self.base, &adjusted_request) {
            MemoryStyle::Dynamic { offset_guard_size } => MemoryStyle::Dynamic {
                offset_guard_size,
            },
            MemoryStyle::Static { .. } => MemoryStyle::Dynamic {
                offset_guard_size: self.base.dynamic_memory_offset_guard_size,
            },
        }
    }
}

/// A request without a maximum leaves the limiter with the limit as its
/// maximum, and a declared maximum passes through unchanged.
pub proof fn lemma_adjusted_maximum(limit: u32, requested: MemoryRequest)
    ensures
        requested.maximum is None ==> adjusted(limit, requested).maximum == Some(limit),
        requested.maximum is Some ==> adjusted(limit, requested) == requested,
        adjusted(limit, requested).minimum == requested.minimum,
        adjusted(limit, requested).shared == requested.shared,
{
}

/// The fate of every request submitted to a limiter with limit `limit`: it is
/// turned away with `LimitExceeded` where its minimum lies above the limit,
/// and where its declared maximum does; every other request is admitted, and
/// `MaximumUnset` never comes out of a submission.
pub proof fn lemma_submission(limit: u32, requested: MemoryRequest)
    ensures
        requested.minimum > limit ==> admitted(limit, requested) == Err::<MemoryRequest, _>(
            MemoryLimitError::LimitExceeded(ExceededBound::Minimum),
        ),
        requested.minimum <= limit && requested.maximum is Some && requested.maximum->0 > limit
            ==> admitted(limit, requested) == Err::<MemoryRequest, _>(
            MemoryLimitError::LimitExceeded(ExceededBound::Maximum),
        ),
        requested.minimum <= limit && (requested.maximum is Some ==> requested.maximum->0
            <= limit) ==> admitted(limit, requested) == Ok::<_, MemoryLimitError>(
            adjusted(limit, requested),
        ),
        admitted(limit, requested) != Err::<MemoryRequest, _>(MemoryLimitError::MaximumUnset),
{
}

/// Every admitted request is bounded by the limit at both ends.
pub proof fn lemma_admitted_is_bounded(limit: u32, requested: MemoryRequest)
    requires
        admitted(limit, requested) is Ok,
    ensures
        admitted(limit, requested)->Ok_0.minimum <= limit,
        admitted(limit, requested)->Ok_0.maximum is Some,
        admitted(limit, requested)->Ok_0.maximum->0 <= limit,
{
}

/// Adjusting twice is adjusting once.
pub proof fn lemma_adjusted_idempotent(limit: u32, requested: MemoryRequest)
    ensures
        adjusted(limit, adjusted(limit, requested)) == adjusted(limit, requested),
{
}

/// Under the limiter every memory is dynamic, whatever the request declares
/// and whatever the underlying provider would have chosen, and its guard is
/// the provider's guard for dynamic memories.
pub proof fn lemma_style_is_dynamic(base: BaseBounds, limit: u32, memory: MemoryRequest)
    ensures
        limited_style(base, limit, memory) is Dynamic,
        limited_style(base, limit, memory) == (MemoryStyle::Dynamic {
            offset_guard_size: base.dynamic_memory_offset_guard_size,
        }),
{
}

/// Under the limit used for compilation, a provider whose static bound stays
/// within what the format can address is never overruled on a memory without
/// a declared maximum: it chooses the dynamic style itself.
pub proof fn lemma_compile_limit_forces_dynamic(base: BaseBounds, memory: MemoryRequest)
    requires
        base.static_memory_bound <= WASM_MAX_PAGES,
        memory.maximum is None,
    ensures
        base_style(base, adjusted(COMPILE_LIMIT, memory)) == limited_style(
            base,
            COMPILE_LIMIT,
            memory,
        ),
{
}

} // verus!
