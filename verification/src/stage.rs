//! Stage descriptors: what a pipeline is built from. A stage names the type
//! of a processing step and the settings that the step is given; a chain of
//! stages, from the sink back to the source, is the plan of a flow.

use vstd::prelude::*;
use vstd::string::StringExecFns;

verus! {

/// The value of one field of a caps setting.
#[derive(Clone, Debug, PartialEq, Eq)]
pub enum CapsValue {
    Int(i32),
    Text(String),
}

/// One field of a caps setting.
#[derive(Clone, Debug, PartialEq, Eq)]
pub struct CapsField {
    pub key: &'static str,
    pub value: CapsValue,
}

/// The value that a setting gives to a stage.
#[derive(Clone, Debug, PartialEq, Eq)]
pub enum Value {
    Bool(bool),
    Int(i32),
    UInt(u32),
    ULong(u64),
    /// A string.
    Text(String),
    /// The name of one choice of an enumerated setting.
    Nick(&'static str),
    /// A media type and its fields, as a filter on what may pass.
    Caps(&'static str, Vec<CapsField>),
    /// The number of the one stream that a source is to select.
    Stream(u32),
    /// The handle of the window that a sink is to draw into.
    Handle(usize),
}

/// One setting of a stage.
#[derive(Clone, Debug, PartialEq, Eq)]
pub struct Setting {
    pub key: &'static str,
    pub value: Value,
}

/// One processing step of a pipeline.
#[derive(Clone, Debug, PartialEq, Eq)]
pub struct Stage {
    /// Name of the stage type
    pub factory: &'static str,
    /// Name by which the stage is found again in its pipeline
    pub name: Option<&'static str>,
    /// Settings, in the order in which they are made
    pub settings: Vec<Setting>,
}

/// The value of one field of a caps setting, as plain values.
pub enum CapsValueView {
    Int(i32),
    Text(Seq<char>),
}

/// One field of a caps setting, as plain values.
pub struct CapsFieldView {
    pub key: &'static str,
    pub value: CapsValueView,
}

/// The value that a setting gives to a stage, as plain values.
pub enum ValueView {
    Bool(bool),
    Int(i32),
    UInt(u32),
    ULong(u64),
    Text(Seq<char>),
    Nick(&'static str),
    Caps(&'static str, Seq<CapsFieldView>),
    Stream(u32),
    Handle(usize),
}

/// One setting of a stage, as plain values.
pub struct SettingView {
    pub key: &'static str,
    pub value: ValueView,
}

/// One processing step of a pipeline, as plain values.
pub struct StageView {
    pub factory: &'static str,
    pub name: Option<&'static str>,
    pub settings: Seq<SettingView>,
}

impl View for CapsValue {
    type V = CapsValueView;

    open spec fn view(&self) -> CapsValueView {
        match self {
            CapsValue::Int(i) => CapsValueView::Int(*i),
            CapsValue::Text(s) => CapsValueView::Text(s@),
        }
    }
}

impl View for CapsField {
    type V = CapsFieldView;

    open spec fn view(&self) -> CapsFieldView {
        CapsFieldView { key: self.key, value: self.value@ }
    }
}

/// The fields of a caps setting as plain values.
pub open spec fn caps_views(fields: Seq<CapsField>) -> Seq<CapsFieldView> {
    Seq::new(fields.len(), |i: int| fields[i]@)
}

impl View for Value {
    type V = ValueView;

    open spec fn view(&self) -> ValueView {
        match self {
            Value::Bool(b) => ValueView::Bool(*b),
            Value::Int(i) => ValueView::Int(*i),
            Value::UInt(u) => ValueView::UInt(*u),
            Value::ULong(u) => ValueView::ULong(*u),
            Value::Text(s) => ValueView::Text(s@),
            Value::Nick(n) => ValueView::Nick(*n),
            Value::Caps(media, fields) => ValueView::Caps(*media, caps_views(fields@)),
            Value::Stream(n) => ValueView::Stream(*n),
            Value::Handle(h) => ValueView::Handle(*h),
        }
    }
}

impl View for Setting {
    type V = SettingView;

    open spec fn view(&self) -> SettingView {
        SettingView { key: self.key, value: self.value@ }
    }
}

/// Settings as plain values.
pub open spec fn setting_views(settings: Seq<Setting>) -> Seq<SettingView> {
    Seq::new(settings.len(), |i: int| settings[i]@)
}

impl View for Stage {
    type V = StageView;

    open spec fn view(&self) -> StageView {
        StageView {
            factory: self.factory,
            name: self.name,
            settings: setting_views(self.settings@),
        }
    }
}

/// A chain of stages as plain values.
pub open spec fn stage_views(stages: Seq<Stage>) -> Seq<StageView> {
    Seq::new(stages.len(), |i: int| stages[i]@)
}

impl StageView {
    /// A stage without a name and without settings.
    pub open spec fn plain(factory: &'static str) -> StageView {
        StageView { factory, name: None, settings: Seq::empty() }
    }

    /// The stage with one more setting after those it has.
    pub open spec fn with(self, key: &'static str, value: ValueView) -> StageView {
        StageView { settings: self.settings.push(SettingView { key, value }), ..self }
    }

    /// The stage under a name.
    pub open spec fn named(self, name: &'static str) -> StageView {
        StageView { name: Some(name), ..self }
    }
}

impl Stage {
    /// A stage without a name and without settings.
    pub fn new(factory: &'static str) -> (r: Stage)
        ensures
            r@ == StageView::plain(factory),
    {
        let r = Stage { factory, name: None, settings: Vec::new() };
        assert(r@.settings =~= Seq::empty());
        r
    }

    /// Gives the stage a name.
    pub fn named(self, name: &'static str) -> (r: Stage)
        ensures
            r@ == self@.named(name),
    {
        let mut r = self;
        r.name = Some(name);
        r
    }

    /// Adds a setting after those that the stage has.
    pub fn with(self, key: &'static str, value: Value) -> (r: Stage)
        ensures
            r@ == self@.with(key, value@),
    {
        let mut r = self;
        r.settings.push(Setting { key, value });
        assert(r@.settings =~= self@.settings.push(SettingView { key, value: value@ }));
        r
    }

    /// Adds a string setting.
    pub fn with_text(self, key: &'static str, text: &str) -> (r: Stage)
        ensures
            r@ == self@.with(key, ValueView::Text(text@)),
    {
        self.with(key, Value::Text(String::from_str(text)))
    }
}

/// Puts a stage at the end of a chain.
pub fn push_stage(chain: &mut Vec<Stage>, stage: Stage)
    ensures
        stage_views(final(chain)@) == stage_views(old(chain)@).push(stage@),
{
    chain.push(stage);
    assert(stage_views(chain@) =~= stage_views(old(chain)@).push(stage@));
}

/// Puts the stages of `more` at the end of a chain, in their order.
pub fn push_stages(chain: &mut Vec<Stage>, more: Vec<Stage>)
    ensures
        stage_views(final(chain)@) == stage_views(old(chain)@) + stage_views(more@),
{
    let mut more = more;
    let ghost added = more@;
    chain.append(&mut more);
    assert(stage_views(chain@) =~= stage_views(old(chain)@) + stage_views(added));
}

} // verus!
