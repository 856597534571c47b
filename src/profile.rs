//! Whether the context bound to the calling thread runs the OpenGL
//! compatibility profile.
//!
//! The driver is queried by the caller, on the thread that owns the bound
//! context; this module decides what to ask and what the answers mean. The
//! detector is conservative: it reports the compatibility profile only where
//! the driver confirms it.

use vstd::prelude::*;

verus! {

/// The `glGetIntegerv` parameter that reports the bound context's profile mask.
pub const CONTEXT_PROFILE_MASK: u32 = 0x9126;

/// The bit of the profile mask that marks the compatibility profile.
pub const CONTEXT_COMPATIBILITY_PROFILE_BIT: u32 = 0x0000_0002;

/// The value of `glGetError` when no error is pending.
pub const NO_ERROR: u32 = 0;

/// The extension a compatibility-profile context lists.
pub open spec fn compatibility_extension() -> Seq<char> {
    "GL_ARB_compatibility"@
}

/// The kind of GL implementation a platform offers, chosen once at startup.
#[derive(Clone, Copy, Debug, PartialEq, Eq, Structural)]
pub enum GlFamily {
    /// OpenGL ES alone, as on mobile and embedded targets: there are no profiles.
    EmbeddedOnly,
    /// Full desktop OpenGL, where a context runs the core or the compatibility profile.
    Desktop,
}

/// What the driver answered to the profile-mask query.
#[derive(Clone, Copy, Debug, PartialEq, Eq, Structural)]
pub struct ProfileMaskReading {
    /// The value `glGetIntegerv(CONTEXT_PROFILE_MASK)` returned.
    pub mask: i32,
    /// The error code `glGetError` returned right after the query, which
    /// also clears it.
    pub error: u32,
}

/// Whether a profile-mask reading confirms the compatibility profile: the
/// query raised no error and the mask has the compatibility bit.
pub open spec fn mask_confirms_compatibility(reading: ProfileMaskReading) -> bool {
    reading.error == NO_ERROR && reading.mask & (CONTEXT_COMPATIBILITY_PROFILE_BIT as i32) != 0
}

/// Whether a list of supported extensions names the compatibility extension.
pub open spec fn lists_compatibility_extension(extensions: Seq<String>) -> bool {
    exists|i: int| 0 <= i < extensions.len() && (#[trigger] extensions[i])@ == compatibility_extension()
}

/// Whether a context on a platform of `family`, whose driver gives these
/// answers, runs the compatibility profile.
pub open spec fn uses_compatibility_profile(
    family: GlFamily,
    reading: ProfileMaskReading,
    extensions: Seq<String>,
) -> bool {
    match family {
        GlFamily::EmbeddedOnly => false,
        GlFamily::Desktop => mask_confirms_compatibility(reading) || lists_compatibility_extension(extensions),
    }
}

/// Whether a profile-mask reading confirms the compatibility profile.
pub fn profile_mask_confirms_compatibility(reading: ProfileMaskReading) -> (r: bool)
    ensures
        r == mask_confirms_compatibility(reading),
{
    reading.error == NO_ERROR && reading.mask & (CONTEXT_COMPATIBILITY_PROFILE_BIT as i32) != 0
}

/// Whether the supported extensions name the compatibility extension.
pub fn extensions_list_compatibility(extensions: &Vec<String>) -> (r: bool)
    ensures
        r == lists_compatibility_extension(extensions@),
{
    let name: String = "GL_ARB_compatibility".to_owned();
    let mut i: usize = 0;
    while i < extensions.len()
        invariant
            i <= extensions@.len(),
            name@ == compatibility_extension(),
            forall|k: int| 0 <= k < i ==> (#[trigger] extensions@[k])@ != compatibility_extension(),
        decreases extensions@.len() - i,
    {
        if extensions[i].eq(&name) {
            return true;
        }
        i = i + 1;
    }
    false
}

/// Whether the context bound to the calling thread runs the compatibility
/// profile, given the platform's family and the driver's answers to the two
/// queries.
///
/// On an OpenGL ES platform the answer is `false` whatever the driver says.
/// Otherwise it is `true` where the profile mask confirms the compatibility
/// profile, or else where the extensions name the compatibility extension.
pub fn current_context_uses_compatibility_profile(
    family: GlFamily,
    reading: ProfileMaskReading,
    extensions: &Vec<String>,
) -> (r: bool)
    ensures
        r == uses_compatibility_profile(family, reading, extensions@),
{
    match family {
        GlFamily::EmbeddedOnly => false,
        GlFamily::Desktop => profile_mask_confirms_compatibility(reading) || extensions_list_compatibility(extensions),
    }
}

/// Where a probe of the bound context stands: what it asks the driver next, or
/// its answer.
#[derive(Clone, Copy, Debug, PartialEq, Eq, Structural)]
pub enum ProbeStep {
    /// Query `CONTEXT_PROFILE_MASK`, then `glGetError`.
    QueryProfileMask,
    /// Read the list of supported extensions.
    QueryExtensions,
    /// The probe is done: whether the context runs the compatibility profile.
    Answer(bool),
}

/// What the driver answered to a query.
#[derive(Debug)]
pub enum ProbeEvent {
    /// The answer to the profile-mask query.
    ProfileMask(ProfileMaskReading),
    /// The supported extensions.
    Extensions(Vec<String>),
}

impl ProbeStep {
    /// The first step of a probe on a platform of `family`.
    pub open spec fn spec_first(family: GlFamily) -> ProbeStep {
        match family {
            GlFamily::EmbeddedOnly => ProbeStep::Answer(false),
            GlFamily::Desktop => ProbeStep::QueryProfileMask,
        }
    }

    /// The step after the driver answered `event`. An answer to another
    /// question than the one asked changes nothing.
    pub open spec fn spec_advance(self, event: ProbeEvent) -> ProbeStep {
        match (self, event) {
            (ProbeStep::QueryProfileMask, ProbeEvent::ProfileMask(reading)) => {
                if mask_confirms_compatibility(reading) {
                    ProbeStep::Answer(true)
                } else {
                    ProbeStep::QueryExtensions
                }
            },
            (ProbeStep::QueryExtensions, ProbeEvent::Extensions(extensions)) => {
                ProbeStep::Answer(lists_compatibility_extension(extensions@))
            },
            _ => self,
        }
    }

    /// The first step of a probe on a platform of `family`: on OpenGL ES the
    /// answer `false` at once, with no query; on desktop OpenGL the
    /// profile-mask query.
    pub fn first(family: GlFamily) -> (r: ProbeStep)
        ensures
            r == ProbeStep::spec_first(family),
    {
        match family {
            GlFamily::EmbeddedOnly => ProbeStep::Answer(false),
            GlFamily::Desktop => ProbeStep::QueryProfileMask,
        }
    }

    /// The step after the driver answered `event`.
    ///
    /// A profile mask that confirms the compatibility profile ends the probe
    /// with `true`; any other reading, an error among them, leads to the
    /// extension query, whose answer ends the probe.
    pub fn advance(self, event: &ProbeEvent) -> (r: ProbeStep)
        ensures
            r == self.spec_advance(*event),
    {
        match (self, event) {
            (ProbeStep::QueryProfileMask, ProbeEvent::ProfileMask(reading)) => {
                if profile_mask_confirms_compatibility(*reading) {
                    ProbeStep::Answer(true)
                } else {
                    ProbeStep::QueryExtensions
                }
            },
            (ProbeStep::QueryExtensions, ProbeEvent::Extensions(extensions)) => {
                ProbeStep::Answer(extensions_list_compatibility(extensions))
            },
            _ => self,
        }
    }
}

/// The step a probe reaches from `step` when the driver answers each query
/// with `reading` or `extensions`, taking at most `fuel` answers.
pub open spec fn run_probe(step: ProbeStep, reading: ProfileMaskReading, extensions: Vec<String>, fuel: nat) -> ProbeStep
    decreases fuel,
{
    if fuel == 0 {
        step
    } else {
        match step {
            ProbeStep::QueryProfileMask => run_probe(
                step.spec_advance(ProbeEvent::ProfileMask(reading)),
                reading,
                extensions,
                (fuel - 1) as nat,
            ),
            ProbeStep::QueryExtensions => run_probe(
                step.spec_advance(ProbeEvent::Extensions(extensions)),
                reading,
                extensions,
                (fuel - 1) as nat,
            ),
            ProbeStep::Answer(_) => step,
        }
    }
}

/// Where OpenGL ES is the only API there is no profile: the probe answers
/// `false` before any query, whatever state the bound context is in.
pub proof fn lemma_embedded_never_compatibility(reading: ProfileMaskReading, extensions: Vec<String>)
    ensures
        ProbeStep::spec_first(GlFamily::EmbeddedOnly) == ProbeStep::Answer(false),
        !uses_compatibility_profile(GlFamily::EmbeddedOnly, reading, extensions@),
{
}

/// Where the profile-mask query reports an error, the probe falls back to the
/// extensions, and answers `true` exactly where they name the compatibility
/// extension.
pub proof fn lemma_error_falls_back_to_extensions(reading: ProfileMaskReading, extensions: Vec<String>)
    requires
        reading.error != NO_ERROR,
    ensures
        ProbeStep::QueryProfileMask.spec_advance(ProbeEvent::ProfileMask(reading)) == ProbeStep::QueryExtensions,
        ProbeStep::QueryExtensions.spec_advance(ProbeEvent::Extensions(extensions)) == ProbeStep::Answer(
            lists_compatibility_extension(extensions@),
        ),
        uses_compatibility_profile(GlFamily::Desktop, reading, extensions@) == lists_compatibility_extension(
            extensions@,
        ),
{
}

/// Where the profile-mask query succeeds with the compatibility bit set, the
/// probe answers `true` at once, without asking for the extensions.
pub proof fn lemma_confirmed_mask_answers_at_once(reading: ProfileMaskReading, extensions: Vec<String>)
    requires
        reading.error == NO_ERROR,
        reading.mask & (CONTEXT_COMPATIBILITY_PROFILE_BIT as i32) != 0,
    ensures
        ProbeStep::QueryProfileMask.spec_advance(ProbeEvent::ProfileMask(reading)) == ProbeStep::Answer(true),
        uses_compatibility_profile(GlFamily::Desktop, reading, extensions@),
{
}

/// A probe answered by the driver ends within two queries, and its answer is
/// `current_context_uses_compatibility_profile` on the same answers.
pub proof fn lemma_probe_answers(family: GlFamily, reading: ProfileMaskReading, extensions: Vec<String>)
    ensures
        run_probe(ProbeStep::spec_first(family), reading, extensions, 2) == ProbeStep::Answer(
            uses_compatibility_profile(family, reading, extensions@),
        ),
{
    reveal_with_fuel(run_probe, 3);
}

} // verus!
