use gl_context::profile::{
    extensions_list_compatibility, profile_mask_confirms_compatibility, CONTEXT_COMPATIBILITY_PROFILE_BIT,
    CONTEXT_PROFILE_MASK, NO_ERROR,
};
use gl_context::{current_context_uses_compatibility_profile, GlFamily, ProbeEvent, ProbeStep, ProfileMaskReading};

const GL_INVALID_ENUM: u32 = 0x0500;
const CORE_PROFILE_BIT: i32 = 0x1;

fn exts(names: &[&str]) -> Vec<String> {
    names.iter().map(|n| n.to_string()).collect()
}

#[test]
fn gl_constants() {
    assert_eq!(CONTEXT_PROFILE_MASK, 0x9126);
    assert_eq!(CONTEXT_COMPATIBILITY_PROFILE_BIT, 0x2);
    assert_eq!(NO_ERROR, 0);
}

#[test]
fn embedded_platform_is_never_compatibility() {
    let confirmed = ProfileMaskReading { mask: 2, error: NO_ERROR };
    let with_ext = exts(&["GL_ARB_compatibility"]);
    assert!(!current_context_uses_compatibility_profile(GlFamily::EmbeddedOnly, confirmed, &with_ext));
    assert_eq!(ProbeStep::first(GlFamily::EmbeddedOnly), ProbeStep::Answer(false));
}

#[test]
fn error_falls_back_to_extensions_present() {
    let reading = ProfileMaskReading { mask: 2, error: GL_INVALID_ENUM };
    let with_ext = exts(&["GL_ARB_vertex_buffer_object", "GL_ARB_compatibility"]);
    assert!(current_context_uses_compatibility_profile(GlFamily::Desktop, reading, &with_ext));
    let step = ProbeStep::first(GlFamily::Desktop);
    assert_eq!(step, ProbeStep::QueryProfileMask);
    let step = step.advance(&ProbeEvent::ProfileMask(reading));
    assert_eq!(step, ProbeStep::QueryExtensions);
    let step = step.advance(&ProbeEvent::Extensions(with_ext));
    assert_eq!(step, ProbeStep::Answer(true));
}

#[test]
fn error_falls_back_to_extensions_absent() {
    let reading = ProfileMaskReading { mask: 2, error: GL_INVALID_ENUM };
    let without = exts(&["GL_ARB_vertex_buffer_object", "GL_ARB_compatibility_x", "GL_ARB_compat"]);
    assert!(!current_context_uses_compatibility_profile(GlFamily::Desktop, reading, &without));
    let step = ProbeStep::QueryProfileMask.advance(&ProbeEvent::ProfileMask(reading));
    assert_eq!(step.advance(&ProbeEvent::Extensions(without)), ProbeStep::Answer(false));
}

#[test]
fn confirmed_mask_answers_without_extensions() {
    let reading = ProfileMaskReading { mask: 2, error: NO_ERROR };
    assert!(current_context_uses_compatibility_profile(GlFamily::Desktop, reading, &Vec::new()));
    let step = ProbeStep::first(GlFamily::Desktop).advance(&ProbeEvent::ProfileMask(reading));
    assert_eq!(step, ProbeStep::Answer(true));
}

#[test]
fn core_profile_without_extension_is_not_compatibility() {
    let reading = ProfileMaskReading { mask: CORE_PROFILE_BIT, error: NO_ERROR };
    assert!(!profile_mask_confirms_compatibility(reading));
    assert!(!current_context_uses_compatibility_profile(GlFamily::Desktop, reading, &exts(&["GL_KHR_debug"])));
}

#[test]
fn mask_with_neither_bit_is_not_compatibility() {
    let reading = ProfileMaskReading { mask: 0, error: NO_ERROR };
    assert!(!current_context_uses_compatibility_profile(GlFamily::Desktop, reading, &Vec::new()));
    assert!(current_context_uses_compatibility_profile(
        GlFamily::Desktop,
        reading,
        &exts(&["GL_ARB_compatibility"])
    ));
}

#[test]
fn mask_confirmation_needs_no_error() {
    assert!(profile_mask_confirms_compatibility(ProfileMaskReading { mask: 3, error: NO_ERROR }));
    assert!(!profile_mask_confirms_compatibility(ProfileMaskReading { mask: 3, error: GL_INVALID_ENUM }));
    assert!(profile_mask_confirms_compatibility(ProfileMaskReading { mask: -1, error: NO_ERROR }));
}

#[test]
fn extension_lookup() {
    assert!(extensions_list_compatibility(&exts(&["GL_ARB_compatibility"])));
    assert!(!extensions_list_compatibility(&Vec::new()));
    assert!(!extensions_list_compatibility(&exts(&["gl_arb_compatibility"])));
}

#[test]
fn answer_ignored_when_not_asked() {
    let reading = ProfileMaskReading { mask: 2, error: NO_ERROR };
    assert_eq!(ProbeStep::QueryExtensions.advance(&ProbeEvent::ProfileMask(reading)), ProbeStep::QueryExtensions);
    assert_eq!(
        ProbeStep::Answer(false).advance(&ProbeEvent::Extensions(exts(&["GL_ARB_compatibility"]))),
        ProbeStep::Answer(false)
    );
    assert_eq!(
        ProbeStep::QueryProfileMask.advance(&ProbeEvent::Extensions(exts(&["GL_ARB_compatibility"]))),
        ProbeStep::QueryProfileMask
    );
}
