//! Decoding of the extension and function identifiers of an SBI call.

use vstd::prelude::*;
use crate::architecture::specification::{
    ACE_FUNCTION_PROMOTE_TO_CONFIDENTIAL_VM,
    ACE_FUNCTION_RESUME_CONFIDENTIAL_HART,
    ACE_FUNCTION_SHARE_PAGE_WITH_HYPERVISOR,
    ACE_FUNCTION_STOP_SHARING_PAGE_WITH_HYPERVISOR,
    ACE_FUNCTION_TERMINATE_CONFIDENTIAL_VM,
    SBI_EXTENSION_ACE,
    SBI_EXTENSION_BASE,
    SBI_EXTENSION_HSM,
    SBI_EXTENSION_IPI,
    SBI_EXTENSION_RFENCE,
    SBI_EXTENSION_SRST,
};

verus! {

/// A function of the security monitor extension.
#[derive(Clone, Copy, Debug, PartialEq, Eq, Structural)]
pub enum AceExtension {
    PromoteToConfidentialVm,
    ResumeConfidentialHart,
    SharePageWithHypervisor,
    StopSharingPageWithHypervisor,
    TerminateConfidentialVm,
    /// A function that the extension does not define; holds the function
    /// identifier.
    Unknown(u64),
}

impl AceExtension {
    /// The function that a function identifier names.
    pub open spec fn decode(function_id: u64) -> AceExtension {
        if function_id == ACE_FUNCTION_PROMOTE_TO_CONFIDENTIAL_VM {
            AceExtension::PromoteToConfidentialVm
        } else if function_id == ACE_FUNCTION_RESUME_CONFIDENTIAL_HART {
            AceExtension::ResumeConfidentialHart
        } else if function_id == ACE_FUNCTION_SHARE_PAGE_WITH_HYPERVISOR {
            AceExtension::SharePageWithHypervisor
        } else if function_id == ACE_FUNCTION_STOP_SHARING_PAGE_WITH_HYPERVISOR {
            AceExtension::StopSharingPageWithHypervisor
        } else if function_id == ACE_FUNCTION_TERMINATE_CONFIDENTIAL_VM {
            AceExtension::TerminateConfidentialVm
        } else {
            AceExtension::Unknown(function_id)
        }
    }

    /// The identifier of a function.
    pub open spec fn function_id(self) -> u64 {
        match self {
            AceExtension::PromoteToConfidentialVm => ACE_FUNCTION_PROMOTE_TO_CONFIDENTIAL_VM,
            AceExtension::ResumeConfidentialHart => ACE_FUNCTION_RESUME_CONFIDENTIAL_HART,
            AceExtension::SharePageWithHypervisor => ACE_FUNCTION_SHARE_PAGE_WITH_HYPERVISOR,
            AceExtension::StopSharingPageWithHypervisor => {
                ACE_FUNCTION_STOP_SHARING_PAGE_WITH_HYPERVISOR
            },
            AceExtension::TerminateConfidentialVm => ACE_FUNCTION_TERMINATE_CONFIDENTIAL_VM,
            AceExtension::Unknown(function_id) => function_id,
        }
    }

    pub fn from_function_id(function_id: u64) -> (function: AceExtension)
        ensures
            function == Self::decode(function_id),
    {
        if function_id == ACE_FUNCTION_PROMOTE_TO_CONFIDENTIAL_VM {
            AceExtension::PromoteToConfidentialVm
        } else if function_id == ACE_FUNCTION_RESUME_CONFIDENTIAL_HART {
            AceExtension::ResumeConfidentialHart
        } else if function_id == ACE_FUNCTION_SHARE_PAGE_WITH_HYPERVISOR {
            AceExtension::SharePageWithHypervisor
        } else if function_id == ACE_FUNCTION_STOP_SHARING_PAGE_WITH_HYPERVISOR {
            AceExtension::StopSharingPageWithHypervisor
        } else if function_id == ACE_FUNCTION_TERMINATE_CONFIDENTIAL_VM {
            AceExtension::TerminateConfidentialVm
        } else {
            AceExtension::Unknown(function_id)
        }
    }
}

/// The SBI extension that a call addresses. Every variant but `Ace` and
/// `Unknown` holds the function identifier of the call.
#[derive(Clone, Copy, Debug, PartialEq, Eq, Structural)]
pub enum SbiExtension {
    Ace(AceExtension),
    Base(u64),
    Ipi(u64),
    Rfence(u64),
    Hsm(u64),
    Srst(u64),
    /// An extension that the security monitor does not know; holds the
    /// extension and the function identifier.
    Unknown(u64, u64),
}

impl SbiExtension {
    /// The extension and function that a pair of identifiers names.
    pub open spec fn decode_spec(extension_id: u64, function_id: u64) -> SbiExtension {
        if extension_id == SBI_EXTENSION_ACE {
            SbiExtension::Ace(AceExtension::decode(function_id))
        } else if extension_id == SBI_EXTENSION_BASE {
            SbiExtension::Base(function_id)
        } else if extension_id == SBI_EXTENSION_IPI {
            SbiExtension::Ipi(function_id)
        } else if extension_id == SBI_EXTENSION_RFENCE {
            SbiExtension::Rfence(function_id)
        } else if extension_id == SBI_EXTENSION_HSM {
            SbiExtension::Hsm(function_id)
        } else if extension_id == SBI_EXTENSION_SRST {
            SbiExtension::Srst(function_id)
        } else {
            SbiExtension::Unknown(extension_id, function_id)
        }
    }

    /// The extension identifier of a decoded call.
    pub open spec fn extension_id(self) -> u64 {
        match self {
            SbiExtension::Ace(_) => SBI_EXTENSION_ACE,
            SbiExtension::Base(_) => SBI_EXTENSION_BASE,
            SbiExtension::Ipi(_) => SBI_EXTENSION_IPI,
            SbiExtension::Rfence(_) => SBI_EXTENSION_RFENCE,
            SbiExtension::Hsm(_) => SBI_EXTENSION_HSM,
            SbiExtension::Srst(_) => SBI_EXTENSION_SRST,
            SbiExtension::Unknown(extension_id, _) => extension_id,
        }
    }

    /// The function identifier of a decoded call.
    pub open spec fn function_id(self) -> u64 {
        match self {
            SbiExtension::Ace(function) => function.function_id(),
            SbiExtension::Base(function_id) => function_id,
            SbiExtension::Ipi(function_id) => function_id,
            SbiExtension::Rfence(function_id) => function_id,
            SbiExtension::Hsm(function_id) => function_id,
            SbiExtension::Srst(function_id) => function_id,
            SbiExtension::Unknown(_, function_id) => function_id,
        }
    }

    /// Decoding loses nothing: the decoded call names the identifiers it was
    /// decoded from.
    pub proof fn lemma_decode_keeps_identifiers(extension_id: u64, function_id: u64)
        ensures
            Self::decode_spec(extension_id, function_id).extension_id() == extension_id,
            Self::decode_spec(extension_id, function_id).function_id() == function_id,
            Self::decode_spec(extension_id, function_id) is Ace <==> extension_id
                == SBI_EXTENSION_ACE,
    {
    }

    pub fn decode(extension_id: u64, function_id: u64) -> (extension: SbiExtension)
        ensures
            extension == Self::decode_spec(extension_id, function_id),
    {
        if extension_id == SBI_EXTENSION_ACE {
            SbiExtension::Ace(AceExtension::from_function_id(function_id))
        } else if extension_id == SBI_EXTENSION_BASE {
            SbiExtension::Base(function_id)
        } else if extension_id == SBI_EXTENSION_IPI {
            SbiExtension::Ipi(function_id)
        } else if extension_id == SBI_EXTENSION_RFENCE {
            SbiExtension::Rfence(function_id)
        } else if extension_id == SBI_EXTENSION_HSM {
            SbiExtension::Hsm(function_id)
        } else if extension_id == SBI_EXTENSION_SRST {
            SbiExtension::Srst(function_id)
        } else {
            SbiExtension::Unknown(extension_id, function_id)
        }
    }
}

} // verus!
