//! The sink factory: from a kind and its settings to the description of the
//! terminal stage that the host builds.

use crate::protocol::SwitchError;
use crate::render::GstUnifiedSinkRenderType;
use vstd::prelude::*;

verus! {

/// The settings of a file capture, as values of the model.
pub struct FileSinkModel {
    /// The path of the file that receives the stream.
    pub location: Seq<char>,
    /// Whether the stream is appended to what the file holds.
    pub append: bool,
    /// Whether the capture follows the clock of the pipeline.
    pub sync: bool,
}

/// The settings of a file capture.
#[derive(Debug, PartialEq, Eq)]
pub struct FileSinkConfig {
    /// The path of the file that receives the stream.
    pub location: String,
    /// Whether the stream is appended to what the file holds.
    pub append: bool,
    /// Whether the capture follows the clock of the pipeline.
    pub sync: bool,
}

impl View for FileSinkConfig {
    type V = FileSinkModel;

    open spec fn view(&self) -> FileSinkModel {
        FileSinkModel { location: self.location@, append: self.append, sync: self.sync }
    }
}

/// A terminal stage, as a value of the model: its kind, and the settings
/// that a file capture carries.
pub struct NodeModel {
    pub kind: GstUnifiedSinkRenderType,
    pub file: Option<FileSinkModel>,
}

/// The description of a terminal stage: its kind, and the settings that a
/// file capture carries.
#[derive(Debug, PartialEq, Eq)]
pub struct TerminalNode {
    pub kind: GstUnifiedSinkRenderType,
    pub file: Option<FileSinkConfig>,
}

impl View for TerminalNode {
    type V = NodeModel;

    open spec fn view(&self) -> NodeModel {
        NodeModel {
            kind: self.kind,
            file: match self.file {
                Some(config) => Some(config@),
                None => None,
            },
        }
    }
}

/// The value of a setting of a stage, as a value of the model.
pub enum ValueModel {
    Text(Seq<char>),
    Flag(bool),
}

/// The value of a setting of a stage.
#[derive(Debug, PartialEq, Eq)]
pub enum PropertyValue {
    Text(String),
    Flag(bool),
}

impl View for PropertyValue {
    type V = ValueModel;

    open spec fn view(&self) -> ValueModel {
        match self {
            PropertyValue::Text(text) => ValueModel::Text(text@),
            PropertyValue::Flag(flag) => ValueModel::Flag(*flag),
        }
    }
}

/// A setting of a stage, as a value of the model.
pub struct SettingModel {
    pub name: Seq<char>,
    pub value: ValueModel,
}

/// A setting that the host applies to a stage it has built.
#[derive(Debug, PartialEq, Eq)]
pub struct PropertySetting {
    pub name: &'static str,
    pub value: PropertyValue,
}

impl View for PropertySetting {
    type V = SettingModel;

    open spec fn view(&self) -> SettingModel {
        SettingModel { name: self.name@, value: self.value@ }
    }
}

/// The settings of a list, each as a value of the model.
pub open spec fn settings_view(settings: Seq<PropertySetting>) -> Seq<SettingModel> {
    settings.map_values(|setting: PropertySetting| setting@)
}

impl FileSinkModel {
    /// The capture that is used where a request names none: into
    /// `/tmp/testoutput.yuv`, appending, and following the clock.
    pub open spec fn default_capture() -> FileSinkModel {
        FileSinkModel { location: "/tmp/testoutput.yuv"@, append: true, sync: true }
    }

    /// A capture into the file at `location`, appending, and following the
    /// clock.
    pub open spec fn capture_into(location: Seq<char>) -> FileSinkModel {
        FileSinkModel { location, append: true, sync: true }
    }
}

impl NodeModel {
    /// What the factory describes for a kind and the capture settings on
    /// offer: only a file capture takes the settings along.
    pub open spec fn build(kind: GstUnifiedSinkRenderType, config: FileSinkModel) -> NodeModel {
        NodeModel {
            kind,
            file: if kind == GstUnifiedSinkRenderType::GstUnifiedsinkRenderTypeFile {
                Some(config)
            } else {
                None
            },
        }
    }

    /// What the factory describes for a number that the host framework hands
    /// in: nothing where the number stands for no kind.
    pub open spec fn build_from_value(
        raw: u32,
        config: FileSinkModel,
    ) -> Result<NodeModel, SwitchError> {
        match GstUnifiedSinkRenderType::spec_from_value(raw) {
            Some(kind) => Ok(NodeModel::build(kind, config)),
            None => Err(SwitchError::UnsupportedKind),
        }
    }

    /// A description is well formed where it carries capture settings
    /// exactly if it describes a file capture.
    pub open spec fn wf(self) -> bool {
        self.file is Some <==> self.kind == GstUnifiedSinkRenderType::GstUnifiedsinkRenderTypeFile
    }

    /// The settings that the host applies to the built stage, in order.
    pub open spec fn properties(self) -> Seq<SettingModel> {
        match self.file {
            Some(config) => seq![
                SettingModel { name: "location"@, value: ValueModel::Text(config.location) },
                SettingModel { name: "append"@, value: ValueModel::Flag(config.append) },
                SettingModel { name: "sync"@, value: ValueModel::Flag(config.sync) },
            ],
            None => Seq::empty(),
        }
    }
}

impl FileSinkConfig {
    /// A capture into the file at `location`, appending, and following the
    /// clock.
    pub fn new(location: String) -> (config: FileSinkConfig)
        ensures
            config@ == FileSinkModel::capture_into(location@),
    {
        FileSinkConfig { location, append: true, sync: true }
    }

    /// The capture that is used where a request names none.
    pub fn default_capture() -> (config: FileSinkConfig)
        ensures
            config@ == FileSinkModel::default_capture(),
    {
        FileSinkConfig { location: "/tmp/testoutput.yuv".to_owned(), append: true, sync: true }
    }

}

impl Clone for FileSinkConfig {
    /// A copy with the same settings.
    fn clone(&self) -> (copy: FileSinkConfig)
        ensures
            copy@ == self@,
    {
        FileSinkConfig { location: self.location.clone(), append: self.append, sync: self.sync }
    }
}

impl Clone for PropertyValue {
    /// A copy with the same value.
    fn clone(&self) -> (copy: PropertyValue)
        ensures
            copy@ == self@,
    {
        match self {
            PropertyValue::Text(text) => PropertyValue::Text(text.clone()),
            PropertyValue::Flag(flag) => PropertyValue::Flag(*flag),
        }
    }
}

impl Clone for PropertySetting {
    /// A copy with the same name and value.
    fn clone(&self) -> (copy: PropertySetting)
        ensures
            copy@ == self@,
    {
        PropertySetting { name: self.name, value: self.value.clone() }
    }
}

impl Clone for TerminalNode {
    /// A copy that describes the same stage.
    fn clone(&self) -> (copy: TerminalNode)
        ensures
            copy@ == self@,
    {
        let file = match &self.file {
            Some(config) => Some(config.clone()),
            None => None,
        };
        TerminalNode { kind: self.kind, file }
    }
}

impl TerminalNode {
    /// The sink factory: the description of the terminal stage of the given
    /// kind. The mapping is total; only a file capture takes the settings
    /// along.
    pub fn build(kind: GstUnifiedSinkRenderType, config: FileSinkConfig) -> (node: TerminalNode)
        ensures
            node@ == NodeModel::build(kind, config@),
            node@.wf(),
    {
        if kind == GstUnifiedSinkRenderType::GstUnifiedsinkRenderTypeFile {
            TerminalNode { kind, file: Some(config) }
        } else {
            TerminalNode { kind, file: None }
        }
    }

    /// The sink factory for a number that the host framework hands in: the
    /// description of the terminal stage of the kind that the number stands
    /// for, or `UnsupportedKind` where it stands for none.
    pub fn build_from_value(
        raw: u32,
        config: FileSinkConfig,
    ) -> (built: Result<TerminalNode, SwitchError>)
        ensures
            built is Ok <==> NodeModel::build_from_value(raw, config@) is Ok,
            built matches Ok(node) ==> NodeModel::build_from_value(raw, config@) == Ok::<
                NodeModel,
                SwitchError,
            >(node@) && node@.wf(),
            built matches Err(error) ==> NodeModel::build_from_value(raw, config@) == Err::<
                NodeModel,
                SwitchError,
            >(error),
    {
        match GstUnifiedSinkRenderType::from_value(raw) {
            Some(kind) => Ok(TerminalNode::build(kind, config)),
            None => Err(SwitchError::UnsupportedKind),
        }
    }

    /// The name of the element factory that builds the stage. The host gives
    /// the built element the same name.
    pub fn factory_name(&self) -> (name: &'static str)
        ensures
            name@ == self.kind.spec_factory_name(),
    {
        self.kind.factory_name()
    }

    /// The settings that the host applies to the built stage, in order: the
    /// location, the append flag and the sync flag of a file capture, and
    /// none for the other kinds.
    pub fn properties(&self) -> (settings: Vec<PropertySetting>)
        ensures
            settings_view(settings@) == self@.properties(),
    {
        let mut settings: Vec<PropertySetting> = Vec::new();
        match &self.file {
            Some(config) => {
                settings.push(
                    PropertySetting {
                        name: "location",
                        value: PropertyValue::Text(config.location.clone()),
                    },
                );
                settings.push(
                    PropertySetting { name: "append", value: PropertyValue::Flag(config.append) },
                );
                settings.push(
                    PropertySetting { name: "sync", value: PropertyValue::Flag(config.sync) },
                );
            },
            None => {},
        }
        assert(settings_view(settings@) =~= self@.properties());
        settings
    }
}

/// The factory is total and deterministic: for every kind it describes a
/// well-formed stage of that kind, the same for the same inputs, and it
/// takes the capture settings along exactly for a file capture.
pub proof fn lemma_factory_total(kind: GstUnifiedSinkRenderType, config: FileSinkModel)
    ensures
        NodeModel::build(kind, config).wf(),
        NodeModel::build(kind, config).kind == kind,
        kind == GstUnifiedSinkRenderType::GstUnifiedsinkRenderTypeFile ==> NodeModel::build(
            kind,
            config,
        ).file == Some(config),
        NodeModel::build_from_value(kind.spec_value(), config) == Ok::<NodeModel, SwitchError>(
            NodeModel::build(kind, config),
        ),
{
}

} // verus!
