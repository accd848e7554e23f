//! The instance: who asks for it, and which layers and extensions it is
//! created with.

use vstd::prelude::*;
use vstd::string::*;
use crate::capability::{check, copy_names, covers, required_layer_names, required_layers};
use crate::error::{ApiResult, EngineError};
use crate::logging::LogLevel;
use crate::text::{
    bullet_list, decimal, push_bullet_list, push_decimal, push_signed_decimal, signed_decimal,
    TAB_IN_SPACES,
};
use crate::vulkan::packed_version;

verus! {

/// A version in three parts.
#[derive(Clone, Copy, Debug, PartialEq, Eq, Structural)]
pub struct Version {
    pub major: u32,
    pub minor: u32,
    pub patch: u32,
}

/// The name and the version under which a program, or the engine below it,
/// makes itself known to the driver.
#[derive(Clone, Debug, PartialEq, Eq)]
pub struct ApplicationIdentity {
    pub name: String,
    pub version: Version,
}

/// What the instance is to be created with.
#[derive(Clone, Debug, PartialEq, Eq)]
pub struct InstancePlan {
    pub application: ApplicationIdentity,
    pub engine: ApplicationIdentity,
    /// The version of the programming interface that is asked for.
    pub api_version: Version,
    /// The layers to enable.
    pub layers: Vec<String>,
    /// The extensions to enable.
    pub extensions: Vec<String>,
}

/// The instance of a context: what it was created with.
#[derive(Clone, Debug, PartialEq, Eq)]
pub struct InstanceHandle {
    pub application: ApplicationIdentity,
    pub engine: ApplicationIdentity,
    pub api_version: Version,
    pub layers: Vec<String>,
    pub extensions: Vec<String>,
}

impl Version {
    /// What the version reads: its parts with dots between them.
    pub open spec fn text(self) -> Seq<char> {
        decimal(self.major as nat) + "."@ + decimal(self.minor as nat) + "."@ + decimal(
            self.patch as nat,
        )
    }

    /// The version as one number, in the driver's packing, variant zero.
    pub fn packed(&self) -> (number: u32)
        ensures
            number == packed_version(0, self.major, self.minor, self.patch),
    {
        ash::vk::make_api_version(0, self.major, self.minor, self.patch)
    }

    /// Appends the version, its parts separated by dots, to `out`.
    pub fn push_to(&self, out: &mut String)
        ensures
            final(out)@ == old(out)@ + self.text(),
    {
        push_decimal(out, self.major as u64);
        out.append(".");
        push_decimal(out, self.minor as u64);
        out.append(".");
        push_decimal(out, self.patch as u64);
    }
}

impl InstancePlan {
    /// What the summary of the plan reads.
    pub open spec fn metadata(self, profile: LogLevel) -> Seq<char> {
        let head = "Created an Instance.\n\n"@ + TAB_IN_SPACES@ + "Application Info:\n"@
            + TAB_IN_SPACES@ + "- Application Name: "@ + self.application.name@ + "\n"@
            + TAB_IN_SPACES@ + "- Application Version: "@ + self.application.version.text() + "\n"@
            + TAB_IN_SPACES@ + "- Engine Name: "@ + self.engine.name@ + "\n"@ + TAB_IN_SPACES@
            + "- Engine Version: "@ + self.engine.version.text() + "\n"@ + TAB_IN_SPACES@
            + "- Vulkan API: "@ + decimal(self.api_version.major as nat) + "."@ + decimal(
            self.api_version.minor as nat,
        ) + "\n\n"@;
        let layers = if profile.validates() {
            head + TAB_IN_SPACES@ + "With Layers:\n"@ + bullet_list(self.layers.deep_view())
        } else {
            head
        };
        layers + "\n"@ + TAB_IN_SPACES@ + "With Extensions:\n"@ + bullet_list(
            self.extensions.deep_view(),
        )
    }

    /// The summary of the plan for the log: who asks for the instance, and
    /// the layers (where the profile validates) and extensions it gets.
    pub fn print_metadata(&self, profile: LogLevel) -> (text: String)
        ensures
            text@ == self.metadata(profile),
    {
        let mut out = String::from_str("Created an Instance.\n\n");
        out.append(TAB_IN_SPACES);
        out.append("Application Info:\n");
        out.append(TAB_IN_SPACES);
        out.append("- Application Name: ");
        out.append(self.application.name.as_str());
        out.append("\n");
        out.append(TAB_IN_SPACES);
        out.append("- Application Version: ");
        self.application.version.push_to(&mut out);
        out.append("\n");
        out.append(TAB_IN_SPACES);
        out.append("- Engine Name: ");
        out.append(self.engine.name.as_str());
        out.append("\n");
        out.append(TAB_IN_SPACES);
        out.append("- Engine Version: ");
        self.engine.version.push_to(&mut out);
        out.append("\n");
        out.append(TAB_IN_SPACES);
        out.append("- Vulkan API: ");
        push_decimal(&mut out, self.api_version.major as u64);
        out.append(".");
        push_decimal(&mut out, self.api_version.minor as u64);
        out.append("\n\n");
        if profile.uses_validation() {
            out.append(TAB_IN_SPACES);
            out.append("With Layers:\n");
            push_bullet_list(&mut out, &self.layers);
        }
        out.append("\n");
        out.append(TAB_IN_SPACES);
        out.append("With Extensions:\n");
        push_bullet_list(&mut out, &self.extensions);
        out
    }
}

impl InstanceHandle {
    pub const ENGINE_NAME: &'static str = "No Engine";

    pub const APPLICATION_NAME: &'static str = "Preparation";

    /// The version of the engine and of the application.
    pub open spec fn release() -> Version {
        Version { major: 0, minor: 1, patch: 0 }
    }

    /// The version of the programming interface the engine is written for.
    pub open spec fn api_release() -> Version {
        Version { major: 1, minor: 3, patch: 0 }
    }

    /// Why an instance that the driver refused could not be created.
    pub open spec fn refusal_reason(result: ApiResult) -> Seq<char> {
        "Vulkan API Error: "@ + signed_decimal(result.code as int)
    }

    /// What holds of the `outcome` of planning an instance.
    ///
    /// A plan comes out exactly when the layers that the profile requires
    /// are among the available ones and every required extension is among
    /// the available ones. It names the application and the engine with
    /// their versions, asks for version 1.3 of the interface, and enables
    /// exactly the required layers and extensions. Otherwise the outcome is
    /// a failure to create the instance, whose reason names the layers where
    /// a layer is missing and the extensions else.
    pub open spec fn plan_meets(
        profile: LogLevel,
        available_layers: Seq<Seq<char>>,
        required_extensions: Seq<Seq<char>>,
        available_extensions: Seq<Seq<char>>,
        outcome: Result<InstancePlan, EngineError>,
    ) -> bool {
        match outcome {
            Ok(plan) => {
                &&& covers(available_layers, required_layer_names(profile))
                &&& covers(available_extensions, required_extensions)
                &&& plan.application.name@ == Self::APPLICATION_NAME@
                &&& plan.application.version == Self::release()
                &&& plan.engine.name@ == Self::ENGINE_NAME@
                &&& plan.engine.version == Self::release()
                &&& plan.api_version == Self::api_release()
                &&& plan.layers.deep_view() == required_layer_names(profile)
                &&& plan.extensions.deep_view() == required_extensions
            },
            Err(error) => {
                &&& error matches EngineError::InstanceCreationFailed(reason)
                &&& if !covers(available_layers, required_layer_names(profile)) {
                    reason@ == "Not presented required Layers for the Instance of Vulkan."@
                } else {
                    &&& !covers(available_extensions, required_extensions)
                    &&& reason@
                        == "Aren't presented required extensions for the Instance of Vulkan."@
                }
            },
        }
    }

    /// What holds of the `outcome` of taking over an instance: the instance
    /// holds what the plan laid down where it was created, and the outcome is
    /// a failure to create the instance, with the driver's code as the
    /// reason, where it was not.
    pub open spec fn takes_over(
        plan: InstancePlan,
        created: Result<(), ApiResult>,
        outcome: Result<InstanceHandle, EngineError>,
    ) -> bool {
        match created {
            Ok(_) => {
                &&& outcome matches Ok(instance)
                &&& instance.application == plan.application
                &&& instance.engine == plan.engine
                &&& instance.api_version == plan.api_version
                &&& instance.layers == plan.layers
                &&& instance.extensions == plan.extensions
            },
            Err(result) => {
                &&& outcome matches Err(EngineError::InstanceCreationFailed(reason))
                &&& reason@ == Self::refusal_reason(result)
            },
        }
    }

    /// Negotiates the layers and the extensions of the instance and lays down
    /// what it is to be created with.
    ///
    /// The layers that the profile requires must be among `available_layers`,
    /// and every one of `required_extensions`, which are those the window
    /// needs to present, among `available_extensions`. A missing layer is
    /// reported before a missing extension; either is final.
    pub fn plan(
        profile: LogLevel,
        available_layers: &Vec<String>,
        required_extensions: &Vec<String>,
        available_extensions: &Vec<String>,
    ) -> (outcome: Result<InstancePlan, EngineError>)
        ensures
            Self::plan_meets(
                profile,
                available_layers.deep_view(),
                required_extensions.deep_view(),
                available_extensions.deep_view(),
                outcome,
            ),
    {
        let layers = required_layers(profile);
        if !check(&layers, available_layers).supported {
            return Err(
                EngineError::InstanceCreationFailed(
                    String::from_str("Not presented required Layers for the Instance of Vulkan."),
                ),
            );
        }
        if !check(required_extensions, available_extensions).supported {
            return Err(
                EngineError::InstanceCreationFailed(
                    String::from_str(
                        "Aren't presented required extensions for the Instance of Vulkan.",
                    ),
                ),
            );
        }
        let extensions = copy_names(required_extensions);
        Ok(
            InstancePlan {
                application: ApplicationIdentity {
                    name: String::from_str(Self::APPLICATION_NAME),
                    version: Version { major: 0, minor: 1, patch: 0 },
                },
                engine: ApplicationIdentity {
                    name: String::from_str(Self::ENGINE_NAME),
                    version: Version { major: 0, minor: 1, patch: 0 },
                },
                api_version: Version { major: 1, minor: 3, patch: 0 },
                layers,
                extensions,
            },
        )
    }

    /// Takes over the instance that was created after `plan`, or reports that
    /// the driver refused it.
    pub fn new(plan: InstancePlan, created: Result<(), ApiResult>) -> (outcome: Result<
        InstanceHandle,
        EngineError,
    >)
        ensures
            Self::takes_over(plan, created, outcome),
    {
        match created {
            Ok(_) => Ok(
                InstanceHandle {
                    application: plan.application,
                    engine: plan.engine,
                    api_version: plan.api_version,
                    layers: plan.layers,
                    extensions: plan.extensions,
                },
            ),
            Err(result) => {
                let mut reason = String::from_str("Vulkan API Error: ");
                push_signed_decimal(&mut reason, result.code);
                Err(EngineError::InstanceCreationFailed(reason))
            },
        }
    }
}

} // verus!
