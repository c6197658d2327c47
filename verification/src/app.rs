//! The navigation state: which screen is shown, which load is in flight,
//! what has been fetched, and the blueprint that is being put together.

use vstd::prelude::*;
use vstd::string::*;
use crate::aws_cli::asg::AsgDetail;
use crate::aws_cli::common::{AwsResource, RegionSetting};
use crate::aws_cli::ec2::Ec2Detail;
use crate::aws_cli::ecr::EcrDetail;
use crate::aws_cli::load_balancer::LoadBalancerDetail;
use crate::aws_cli::security_group::SecurityGroupDetail;
use crate::aws_cli::vpc::{NetworkDetail, NetworkPart};
use crate::blueprint::{Blueprint, BlueprintResource, BlueprintStore, BlueprintView, ResourceType};
use crate::document::{
    body_views, document_text, index_views, lemma_skipped_bounds, render, skipped, Selection,
};
use crate::i18n::{I18n, Language};
use crate::progress::{LoadingProgress, STEP_COUNT};
use crate::settings::AppSettings;
use crate::text::{concat3, views};

verus! {

/// The views of the interface. Exactly one is shown at a time.
#[derive(Debug, Clone, Copy, PartialEq, Eq, Structural)]
pub enum Screen {
    Login,
    BlueprintSelect,
    BlueprintDetail,
    BlueprintNameInput,
    BlueprintPreview,
    RegionSelect,
    ServiceSelect,
    Ec2Select,
    VpcSelect,
    SecurityGroupSelect,
    LoadBalancerSelect,
    EcrSelect,
    AsgSelect,
    Preview,
    Settings,
}

/// The unit of work that is in flight, if any.
#[derive(Debug, PartialEq)]
pub enum LoadingTask {
    /// No task is in flight.
    Idle,
    RefreshEc2,
    RefreshVpc,
    RefreshPreview,
    RefreshSecurityGroup,
    RefreshLoadBalancer,
    RefreshEcr,
    RefreshAsg,
    LoadEc2,
    LoadVpc,
    LoadSecurityGroup,
    LoadLoadBalancer,
    LoadEcr,
    LoadAsg,
    LoadEc2Detail(String),
    /// The network's identifier and the step, from 0 to 6, that is awaited.
    LoadVpcDetail(String, u8),
    LoadSecurityGroupDetail(String),
    LoadLoadBalancerDetail(String),
    LoadEcrDetail(String),
    LoadAsgDetail(String),
    /// The index of the blueprint resource whose detail is awaited.
    LoadBlueprintResources(usize),
}

impl Clone for LoadingTask {
    fn clone(&self) -> (r: Self)
        ensures
            r == *self,
    {
        match self {
            LoadingTask::Idle => LoadingTask::Idle,
            LoadingTask::RefreshEc2 => LoadingTask::RefreshEc2,
            LoadingTask::RefreshVpc => LoadingTask::RefreshVpc,
            LoadingTask::RefreshPreview => LoadingTask::RefreshPreview,
            LoadingTask::RefreshSecurityGroup => LoadingTask::RefreshSecurityGroup,
            LoadingTask::RefreshLoadBalancer => LoadingTask::RefreshLoadBalancer,
            LoadingTask::RefreshEcr => LoadingTask::RefreshEcr,
            LoadingTask::RefreshAsg => LoadingTask::RefreshAsg,
            LoadingTask::LoadEc2 => LoadingTask::LoadEc2,
            LoadingTask::LoadVpc => LoadingTask::LoadVpc,
            LoadingTask::LoadSecurityGroup => LoadingTask::LoadSecurityGroup,
            LoadingTask::LoadLoadBalancer => LoadingTask::LoadLoadBalancer,
            LoadingTask::LoadEcr => LoadingTask::LoadEcr,
            LoadingTask::LoadAsg => LoadingTask::LoadAsg,
            LoadingTask::LoadEc2Detail(id) => LoadingTask::LoadEc2Detail(id.clone()),
            LoadingTask::LoadVpcDetail(id, step) => LoadingTask::LoadVpcDetail(id.clone(), *step),
            LoadingTask::LoadSecurityGroupDetail(id) => LoadingTask::LoadSecurityGroupDetail(
                id.clone(),
            ),
            LoadingTask::LoadLoadBalancerDetail(id) => LoadingTask::LoadLoadBalancerDetail(
                id.clone(),
            ),
            LoadingTask::LoadEcrDetail(id) => LoadingTask::LoadEcrDetail(id.clone()),
            LoadingTask::LoadAsgDetail(id) => LoadingTask::LoadAsgDetail(id.clone()),
            LoadingTask::LoadBlueprintResources(index) => LoadingTask::LoadBlueprintResources(
                *index,
            ),
        }
    }
}

/// What a task asks of the provider.
pub enum TaskShape {
    /// Nothing: there is no task.
    NoTask,
    /// The list of the resources of one kind.
    List(ResourceType),
    /// The detail of one resource, in one fetch.
    Detail(ResourceType),
    /// The text of the preview, made anew.
    Preview,
    /// A network's detail, in seven fetches.
    NetworkSteps,
    /// The details of a blueprint's resources, one fetch for each.
    BlueprintSteps,
}

impl LoadingTask {
    /// What the task asks of the provider.
    pub open spec fn shape(self) -> TaskShape {
        match self {
            LoadingTask::Idle => TaskShape::NoTask,
            LoadingTask::RefreshEc2 | LoadingTask::LoadEc2 => TaskShape::List(ResourceType::Ec2),
            LoadingTask::RefreshVpc | LoadingTask::LoadVpc => TaskShape::List(
                ResourceType::Network,
            ),
            LoadingTask::RefreshSecurityGroup | LoadingTask::LoadSecurityGroup => TaskShape::List(
                ResourceType::SecurityGroup,
            ),
            LoadingTask::RefreshLoadBalancer | LoadingTask::LoadLoadBalancer => TaskShape::List(
                ResourceType::LoadBalancer,
            ),
            LoadingTask::RefreshEcr | LoadingTask::LoadEcr => TaskShape::List(ResourceType::Ecr),
            LoadingTask::RefreshAsg | LoadingTask::LoadAsg => TaskShape::List(ResourceType::Asg),
            LoadingTask::RefreshPreview => TaskShape::Preview,
            LoadingTask::LoadEc2Detail(_) => TaskShape::Detail(ResourceType::Ec2),
            LoadingTask::LoadSecurityGroupDetail(_) => TaskShape::Detail(
                ResourceType::SecurityGroup,
            ),
            LoadingTask::LoadLoadBalancerDetail(_) => TaskShape::Detail(
                ResourceType::LoadBalancer,
            ),
            LoadingTask::LoadEcrDetail(_) => TaskShape::Detail(ResourceType::Ecr),
            LoadingTask::LoadAsgDetail(_) => TaskShape::Detail(ResourceType::Asg),
            LoadingTask::LoadVpcDetail(_, _) => TaskShape::NetworkSteps,
            LoadingTask::LoadBlueprintResources(_) => TaskShape::BlueprintSteps,
        }
    }
}

/// A region that the operator can choose.
pub struct Region {
    pub code: &'static str,
    pub name_ko: &'static str,
    pub name_en: &'static str,
}

impl Region {
    /// The region's name in the given language.
    pub fn name(&self, lang: Language) -> (r: &'static str)
        ensures
            r@ == lang.pick(self.name_ko@, self.name_en@),
    {
        match lang {
            Language::Korean => self.name_ko,
            Language::English => self.name_en,
        }
    }
}

/// Number of regions on offer.
pub const REGION_COUNT: usize = 12;

/// Number of services on offer.
pub const SERVICE_COUNT: usize = 6;

/// The code of the region at `index` of the regions on offer.
pub open spec fn region_code(index: int) -> Seq<char> {
    if index == 0 {
        "ap-northeast-2"@
    } else if index == 1 {
        "ap-northeast-1"@
    } else if index == 2 {
        "ap-northeast-3"@
    } else if index == 3 {
        "ap-southeast-1"@
    } else if index == 4 {
        "ap-southeast-2"@
    } else if index == 5 {
        "ap-south-1"@
    } else if index == 6 {
        "us-east-1"@
    } else if index == 7 {
        "us-east-2"@
    } else if index == 8 {
        "us-west-1"@
    } else if index == 9 {
        "us-west-2"@
    } else if index == 10 {
        "eu-west-1"@
    } else {
        "eu-central-1"@
    }
}

/// The Korean name of the region at `index`.
pub open spec fn region_name_ko(index: int) -> Seq<char> {
    if index == 0 {
        "서울"@
    } else if index == 1 {
        "도쿄"@
    } else if index == 2 {
        "오사카"@
    } else if index == 3 {
        "싱가포르"@
    } else if index == 4 {
        "시드니"@
    } else if index == 5 {
        "뭄바이"@
    } else if index == 6 {
        "버지니아"@
    } else if index == 7 {
        "오하이오"@
    } else if index == 8 {
        "캘리포니아"@
    } else if index == 9 {
        "오레곤"@
    } else if index == 10 {
        "아일랜드"@
    } else {
        "프랑크푸르트"@
    }
}

/// The English name of the region at `index`.
pub open spec fn region_name_en(index: int) -> Seq<char> {
    if index == 0 {
        "Seoul"@
    } else if index == 1 {
        "Tokyo"@
    } else if index == 2 {
        "Osaka"@
    } else if index == 3 {
        "Singapore"@
    } else if index == 4 {
        "Sydney"@
    } else if index == 5 {
        "Mumbai"@
    } else if index == 6 {
        "N. Virginia"@
    } else if index == 7 {
        "Ohio"@
    } else if index == 8 {
        "N. California"@
    } else if index == 9 {
        "Oregon"@
    } else if index == 10 {
        "Ireland"@
    } else {
        "Frankfurt"@
    }
}

/// The region at `index` of the regions on offer.
pub fn region_at(index: usize) -> (r: Region)
    requires
        index < REGION_COUNT,
    ensures
        r.code@ == region_code(index as int),
        r.name_ko@ == region_name_ko(index as int),
        r.name_en@ == region_name_en(index as int),
{
    if index == 0 {
        Region { code: "ap-northeast-2", name_ko: "서울", name_en: "Seoul" }
    } else if index == 1 {
        Region { code: "ap-northeast-1", name_ko: "도쿄", name_en: "Tokyo" }
    } else if index == 2 {
        Region { code: "ap-northeast-3", name_ko: "오사카", name_en: "Osaka" }
    } else if index == 3 {
        Region { code: "ap-southeast-1", name_ko: "싱가포르", name_en: "Singapore" }
    } else if index == 4 {
        Region { code: "ap-southeast-2", name_ko: "시드니", name_en: "Sydney" }
    } else if index == 5 {
        Region { code: "ap-south-1", name_ko: "뭄바이", name_en: "Mumbai" }
    } else if index == 6 {
        Region { code: "us-east-1", name_ko: "버지니아", name_en: "N. Virginia" }
    } else if index == 7 {
        Region { code: "us-east-2", name_ko: "오하이오", name_en: "Ohio" }
    } else if index == 8 {
        Region { code: "us-west-1", name_ko: "캘리포니아", name_en: "N. California" }
    } else if index == 9 {
        Region { code: "us-west-2", name_ko: "오레곤", name_en: "Oregon" }
    } else if index == 10 {
        Region { code: "eu-west-1", name_ko: "아일랜드", name_en: "Ireland" }
    } else {
        Region { code: "eu-central-1", name_ko: "프랑크푸르트", name_en: "Frankfurt" }
    }
}

/// The name of the service at `index` of the services on offer.
pub open spec fn service_name(index: int) -> Seq<char> {
    if index == 0 {
        "EC2"@
    } else if index == 1 {
        "Network"@
    } else if index == 2 {
        "Security Group"@
    } else if index == 3 {
        "Load Balancer"@
    } else if index == 4 {
        "ECR"@
    } else {
        "ASG"@
    }
}

/// The name of the service at `index` of the services on offer, which
/// stand in the order of priority of their kinds.
pub fn service_key(index: usize) -> (r: &'static str)
    requires
        index < SERVICE_COUNT,
    ensures
        r@ == service_name(index as int),
{
    if index == 0 {
        "EC2"
    } else if index == 1 {
        "Network"
    } else if index == 2 {
        "Security Group"
    } else if index == 3 {
        "Load Balancer"
    } else if index == 4 {
        "ECR"
    } else {
        "ASG"
    }
}

/// What the operator is told once the store has been saved after a change,
/// where the change calls for more than the plain notice of a save.
#[derive(Debug, Clone, Copy, PartialEq, Eq, Structural)]
pub enum SaveNotice {
    Deleted,
    ResourceAdded,
    ResourceDeleted,
}

/// Why an input of the operator was not taken.
#[derive(Debug, Clone, Copy, PartialEq, Eq, Structural)]
pub enum ValidationError {
    /// The name of a blueprint holds nothing but white space.
    EmptyName,
}

/// The whole state of a session.
pub struct App {
    pub screen: Screen,
    pub running: bool,
    pub loading: bool,
    pub loading_task: LoadingTask,
    pub loading_progress: LoadingProgress,
    pub login_info: Option<String>,
    pub login_error: Option<String>,
    pub selected_region: usize,
    pub selected_service: usize,
    pub selected_index: usize,
    pub message: String,
    // Settings and language
    pub settings: AppSettings,
    pub i18n: I18n,
    pub selected_setting: usize,
    /// 0 for the main tab, 1 for the settings.
    pub selected_tab: usize,
    // Listings
    pub instances: Vec<AwsResource>,
    pub vpcs: Vec<AwsResource>,
    pub security_groups: Vec<AwsResource>,
    pub load_balancers: Vec<AwsResource>,
    pub ecr_repositories: Vec<AwsResource>,
    pub auto_scaling_groups: Vec<AwsResource>,
    // The detail that is shown: at most one of the six
    pub ec2_detail: Option<Ec2Detail>,
    pub network_detail: Option<NetworkDetail>,
    pub sg_detail: Option<SecurityGroupDetail>,
    pub lb_detail: Option<LoadBalancerDetail>,
    pub ecr_detail: Option<EcrDetail>,
    pub asg_detail: Option<AsgDetail>,
    /// What the steps of a network detail have brought so far.
    pub network_draft: Option<NetworkDetail>,
    // Preview
    pub preview_content: String,
    pub preview_filename: String,
    pub preview_scroll: u16,
    /// Where a drag began, as column and row.
    pub preview_drag_start: Option<(u16, u16)>,
    // Blueprints
    pub blueprint_store: BlueprintStore,
    pub selected_blueprint_index: usize,
    pub current_blueprint: Option<Blueprint>,
    pub blueprint_mode: bool,
    pub blueprint_resource_index: usize,
    pub input_buffer: String,
    /// The detail texts fetched for the open blueprint's resources, in their
    /// order; `None` for a resource whose fetch failed.
    pub blueprint_markdown_parts: Vec<Option<String>>,
    /// A change of the store that has not been saved yet, and what is to be
    /// said of it.
    pub pending_save: bool,
    pub pending_notice: Option<SaveNotice>,
}

impl App {
    /// The state in which a session starts, with the given store and
    /// settings: the login screen, nothing loading, nothing fetched.
    pub open spec fn initial(&self, store: BlueprintStore, settings: AppSettings) -> bool {
        &&& self.screen == Screen::Login
        &&& self.running
        &&& !self.loading
        &&& self.loading_task == LoadingTask::Idle
        &&& self.loading_progress.at_rest()
        &&& self.login_info is None
        &&& self.login_error is None
        &&& self.selected_region == 0
        &&& self.selected_service == 0
        &&& self.selected_index == 0
        &&& self.message@ == Seq::<char>::empty()
        &&& self.settings == settings
        &&& self.i18n.lang == settings.language
        &&& self.selected_setting == 0
        &&& self.selected_tab == 0
        &&& self.instances@ == Seq::<AwsResource>::empty()
        &&& self.vpcs@ == Seq::<AwsResource>::empty()
        &&& self.security_groups@ == Seq::<AwsResource>::empty()
        &&& self.load_balancers@ == Seq::<AwsResource>::empty()
        &&& self.ecr_repositories@ == Seq::<AwsResource>::empty()
        &&& self.auto_scaling_groups@ == Seq::<AwsResource>::empty()
        &&& self.ec2_detail is None
        &&& self.network_detail is None
        &&& self.sg_detail is None
        &&& self.lb_detail is None
        &&& self.ecr_detail is None
        &&& self.asg_detail is None
        &&& self.network_draft is None
        &&& self.preview_content@ == Seq::<char>::empty()
        &&& self.preview_filename@ == Seq::<char>::empty()
        &&& self.preview_scroll == 0
        &&& self.preview_drag_start is None
        &&& self.blueprint_store == store
        &&& self.selected_blueprint_index == 0
        &&& self.current_blueprint is None
        &&& !self.blueprint_mode
        &&& self.blueprint_resource_index == 0
        &&& self.input_buffer@ == Seq::<char>::empty()
        &&& self.blueprint_markdown_parts@ == Seq::<Option<String>>::empty()
        &&& !self.pending_save
        &&& self.pending_notice is None
    }

    /// Starts a session with the store and the settings that were loaded.
    pub fn new(blueprint_store: BlueprintStore, settings: AppSettings) -> (r: App)
        ensures
            r.initial(blueprint_store, settings),
            r.well_formed(),
    {
        App {
            screen: Screen::Login,
            running: true,
            loading: false,
            loading_task: LoadingTask::Idle,
            loading_progress: LoadingProgress::default(),
            login_info: None,
            login_error: None,
            selected_region: 0,
            selected_service: 0,
            selected_index: 0,
            message: String::new(),
            settings,
            i18n: I18n::new(settings.language),
            selected_setting: 0,
            selected_tab: 0,
            instances: Vec::new(),
            vpcs: Vec::new(),
            security_groups: Vec::new(),
            load_balancers: Vec::new(),
            ecr_repositories: Vec::new(),
            auto_scaling_groups: Vec::new(),
            ec2_detail: None,
            network_detail: None,
            sg_detail: None,
            lb_detail: None,
            ecr_detail: None,
            asg_detail: None,
            network_draft: None,
            preview_content: String::new(),
            preview_filename: String::new(),
            preview_scroll: 0,
            preview_drag_start: None,
            blueprint_store,
            selected_blueprint_index: 0,
            current_blueprint: None,
            blueprint_mode: false,
            blueprint_resource_index: 0,
            input_buffer: String::new(),
            blueprint_markdown_parts: Vec::new(),
            pending_save: false,
            pending_notice: None,
        }
    }

    /// Takes the outcome of the identity check. On success the login line
    /// is kept and the blueprints are entered, as through `enter`; on
    /// failure the reason is kept and the screen stays.
    pub fn check_login(&mut self, outcome: Result<String, String>)
        ensures
            old(self).well_formed() ==> final(self).well_formed(),
            *final(self) == match outcome {
                Ok(info) => App {
                    login_info: Some(info),
                    ..old(self).entered(Screen::BlueprintSelect)
                },
                Err(reason) => App { login_error: Some(reason), ..*old(self) },
            },
    {
        match outcome {
            Ok(info) => {
                self.login_info = Some(info);
                self.enter(Screen::BlueprintSelect);
            },
            Err(reason) => {
                self.login_error = Some(reason);
            },
        }
    }

    /// Makes the selected region the provider's region and enters the
    /// services, as through `enter`: a task in flight is given up.
    pub fn select_region(&mut self, setting: &mut RegionSetting)
        requires
            old(self).selected_region < REGION_COUNT,
        ensures
            old(self).well_formed() ==> final(self).well_formed(),
            *final(self) == old(self).entered(Screen::ServiceSelect),
            final(setting).region matches Some(code) && code@ == region_code(
                old(self).selected_region as int,
            ),
    {
        let region = region_at(self.selected_region);
        crate::aws_cli::common::set_region(setting, region.code);
        self.enter(Screen::ServiceSelect);
    }

    /// The code of the selected region.
    pub fn get_current_region(&self) -> (r: String)
        requires
            self.selected_region < REGION_COUNT,
        ensures
            r@ == region_code(self.selected_region as int),
    {
        String::from_str(region_at(self.selected_region).code)
    }

    /// Takes the outcome of writing the preview to its file: once written,
    /// the operator is told so, with the file's name.
    pub fn save_file(&mut self, written: bool) -> (r: bool)
        ensures
            old(self).well_formed() ==> final(self).well_formed(),
            r == written,
            written ==> final(self).message@ == old(self).i18n.lang.pick("ì €ìž¥ ì™„ë£Œ"@, "Save complete"@) + ": "@
                + old(self).preview_filename@,
            *final(self) == if written {
                App { message: final(self).message, ..*old(self) }
            } else {
                *old(self)
            },
    {
        if written {
            self.message = concat3(
                self.i18n.save_complete(),
                ": ",
                self.preview_filename.as_str(),
            );
        }
        written
    }

    /// Switches the interface to the other language. The settings are to be
    /// saved next, and the outcome handed to `save_settings`.
    pub fn toggle_language(&mut self)
        ensures
            old(self).well_formed() ==> final(self).well_formed(),
            final(self).settings.language == old(self).settings.language.other(),
            final(self).i18n.lang == final(self).settings.language,
            *final(self) == (App {
                settings: final(self).settings,
                i18n: final(self).i18n,
                ..*old(self)
            }),
    {
        self.settings.language = self.settings.language.toggle();
        self.i18n = I18n::new(self.settings.language);
    }

    /// Takes the outcome of saving the settings: a save that went through is
    /// announced, one that failed is reported.
    pub fn save_settings(&mut self, saved: bool)
        ensures
            old(self).well_formed() ==> final(self).well_formed(),
            final(self).message@ == if saved {
                old(self).i18n.lang.pick("ì„¤ì • ì €ìž¥ ì™„ë£Œ"@, "Settings saved"@)
            } else {
                "Save failed"@
            },
            *final(self) == (App { message: final(self).message, ..*old(self) }),
    {
        if saved {
            self.message = String::from_str(self.i18n.settings_saved());
        } else {
            self.message = String::from_str("Save failed");
        }
    }
}

/// The blueprint that is open, as plain values.
pub open spec fn open_view(current: Option<Blueprint>) -> Option<BlueprintView> {
    match current {
        Some(blueprint) => Some(blueprint@),
        None => None,
    }
}

/// The selection after the blueprint count has fallen to `remaining`: one
/// less where it pointed past the end and was not zero already.
pub open spec fn clamped(selected: int, remaining: int) -> int {
    if selected >= remaining && selected > 0 {
        selected - 1
    } else {
        selected
    }
}

/// What the operator is told of the outcome of a save of the store.
pub open spec fn save_message(lang: Language, saved: bool) -> Seq<char> {
    if saved {
        lang.pick("ë¸”ë£¨í”„ë¦°í„° ì €ìž¥ ì™„ë£Œ"@, "Blueprint saved"@)
    } else {
        "Save failed"@
    }
}

/// What the operator is told of a change that was saved.
pub open spec fn notice_message(lang: Language, notice: SaveNotice) -> Seq<char> {
    match notice {
        SaveNotice::Deleted => lang.pick("ë¸”ë£¨í”„ë¦°í„° ì‚­ì œ ì™„ë£Œ"@, "Blueprint deleted"@),
        SaveNotice::ResourceAdded => lang.pick("ë¦¬ì†ŒìŠ¤ ì¶”ê°€ ì™„ë£Œ"@, "Resource added"@),
        SaveNotice::ResourceDeleted => lang.pick("ë¦¬ì†ŒìŠ¤ ì‚­ì œ ì™„ë£Œ"@, "Resource deleted"@),
    }
}

/// Keeps a selection within bounds after the blueprint count has fallen to
/// `remaining`.
pub fn clamp_selection(selected: usize, remaining: usize) -> (r: usize)
    ensures
        r == clamped(selected as int, remaining as int),
{
    if selected >= remaining && selected > 0 {
        selected - 1
    } else {
        selected
    }
}

impl App {
    /// Whether the open blueprint has its counterpart in the store: the
    /// selection points at a blueprint of the open blueprint's name.
    pub open spec fn has_counterpart(&self) -> bool {
        &&& self.current_blueprint matches Some(blueprint)
        &&& self.selected_blueprint_index < self.blueprint_store@.len()
        &&& self.blueprint_store@[self.selected_blueprint_index as int].name == blueprint@.name
    }

    /// The state after a change was refused because the open blueprint has
    /// no counterpart in the store: the operator is told, nothing else
    /// changes.
    pub open spec fn not_found(&self, before: &App) -> bool {
        &&& self.message@ == "Blueprint not found"@
        &&& *self == (App { message: self.message, ..*before })
    }

    /// The state after a change of the open blueprint to `changed`: the
    /// store's copy under the selection follows, and a save is due with the
    /// given notice. All else stays.
    pub open spec fn after_change(
        &self,
        before: &App,
        changed: BlueprintView,
        notice: Option<SaveNotice>,
    ) -> bool {
        &&& open_view(self.current_blueprint) == Some(changed)
        &&& self.blueprint_store@ == before.blueprint_store@.update(
            before.selected_blueprint_index as int,
            changed,
        )
        &&& *self == (App {
            current_blueprint: self.current_blueprint,
            blueprint_store: self.blueprint_store,
            pending_save: true,
            pending_notice: notice,
            ..*before
        })
    }

    /// The state after a change of the open blueprint to `changed` was
    /// asked for and nothing in the request itself stood against it: where
    /// the open blueprint has its counterpart, the change is made; where it
    /// has none, the change is refused and the operator is told.
    pub open spec fn changed_or_not_found(
        &self,
        before: &App,
        changed: BlueprintView,
        notice: Option<SaveNotice>,
        done: bool,
    ) -> bool {
        &&& done == before.has_counterpart()
        &&& done ==> self.after_change(before, changed, notice)
        &&& !done ==> self.not_found(before)
    }

    /// The state after the outcome of a save of the store was taken: the
    /// operator is told of it. A save that went through is no longer due; a
    /// save that failed stays due, and the notice of the change is dropped
    /// so that the failure is what the operator reads.
    pub open spec fn after_save(&self, before: &App, saved: bool) -> bool {
        &&& self.message@ == save_message(before.i18n.lang, saved)
        &&& *self == (App {
            message: self.message,
            pending_save: !saved && before.pending_save,
            pending_notice: if saved {
                before.pending_notice
            } else {
                None
            },
            ..*before
        })
    }

    /// The state after the notice of the last change was given: where one
    /// waited, the operator is told of the change; where none did, nothing
    /// changes.
    pub open spec fn after_announce(&self, before: &App) -> bool {
        match before.pending_notice {
            Some(notice) => {
                &&& self.message@ == notice_message(before.i18n.lang, notice)
                &&& *self == (App { message: self.message, pending_notice: None, ..*before })
            },
            None => *self == *before,
        }
    }

    /// The state after a blueprint named `name` was asked for, and whether
    /// it was made.
    pub open spec fn after_create(&self, before: &App, name: Seq<char>, created: bool) -> bool {
        &&& created == !crate::text::blank(name)
        &&& !created ==> *self == *before
        &&& created ==> {
            &&& self.blueprint_store@ == before.blueprint_store@.push(
                BlueprintView { name, resources: Seq::empty() },
            )
            &&& self.selected_blueprint_index == before.blueprint_store@.len()
            &&& *self == (App {
                blueprint_store: self.blueprint_store,
                selected_blueprint_index: self.selected_blueprint_index,
                pending_save: true,
                pending_notice: None,
                ..*before
            })
        }
    }

    /// The state after the blueprint at `index` was to be deleted, and
    /// whether it was. Deleting the blueprint under the selection closes
    /// the open blueprint, whose counterpart it was.
    pub open spec fn after_delete(&self, before: &App, index: int, deleted: bool) -> bool {
        &&& deleted == (0 <= index < before.blueprint_store@.len())
        &&& !deleted ==> *self == *before
        &&& deleted ==> {
            &&& self.blueprint_store@ == before.blueprint_store@.remove(index)
            &&& self.selected_blueprint_index == clamped(
                before.selected_blueprint_index as int,
                before.blueprint_store@.len() - 1,
            )
            &&& *self == (App {
                blueprint_store: self.blueprint_store,
                selected_blueprint_index: self.selected_blueprint_index,
                current_blueprint: if index == before.selected_blueprint_index {
                    None
                } else {
                    before.current_blueprint
                },
                pending_save: true,
                pending_notice: Some(SaveNotice::Deleted),
                ..*before
            })
        }
    }

    /// The state after `resource` was to be added to the open blueprint,
    /// and whether it was.
    pub open spec fn after_add(
        &self,
        before: &App,
        resource: crate::blueprint::BlueprintResourceView,
        added: bool,
    ) -> bool {
        if before.current_blueprint is None {
            !added && *self == *before
        } else {
            self.changed_or_not_found(
                before,
                before.current_blueprint->0@.with_resource(resource),
                Some(SaveNotice::ResourceAdded),
                added,
            )
        }
    }

    /// The state after the resource at `index` was to be removed from the
    /// open blueprint, and whether it was.
    pub open spec fn after_remove(&self, before: &App, index: int, removed: bool) -> bool {
        if !(before.current_blueprint matches Some(blueprint) && 0 <= index
            < blueprint@.resources.len()) {
            !removed && *self == *before
        } else {
            self.changed_or_not_found(
                before,
                before.current_blueprint->0@.without_resource(index),
                Some(SaveNotice::ResourceDeleted),
                removed,
            )
        }
    }

    /// The state after the resource at `index` of the open blueprint was to
    /// move up, and whether it did.
    pub open spec fn after_move_up(&self, before: &App, index: int, moved: bool) -> bool {
        if !(before.current_blueprint matches Some(blueprint) && blueprint@.can_move_up(index)) {
            !moved && *self == *before
        } else {
            self.changed_or_not_found(
                before,
                before.current_blueprint->0@.swapped(index, index - 1),
                None,
                moved,
            )
        }
    }

    /// The state after the resource at `index` of the open blueprint was to
    /// move down, and whether it did.
    pub open spec fn after_move_down(&self, before: &App, index: int, moved: bool) -> bool {
        if !(before.current_blueprint matches Some(blueprint) && blueprint@.can_move_down(
            index,
        )) {
            !moved && *self == *before
        } else {
            self.changed_or_not_found(
                before,
                before.current_blueprint->0@.swapped(index, index + 1),
                None,
                moved,
            )
        }
    }

    /// Tells whether the open blueprint has its counterpart in the store.
    fn counterpart_found(&self) -> (r: bool)
        ensures
            r == self.has_counterpart(),
    {
        match &self.current_blueprint {
            Some(blueprint) => {
                if self.selected_blueprint_index < self.blueprint_store.len() {
                    match self.blueprint_store.get_blueprint(self.selected_blueprint_index) {
                        Some(stored) => stored.name == blueprint.name,
                        None => false,
                    }
                } else {
                    false
                }
            },
            None => false,
        }
    }

    /// Tells the operator that the open blueprint has no counterpart.
    fn report_not_found(&mut self)
        ensures
            final(self).not_found(&*old(self)),
    {
        self.message = String::from_str("Blueprint not found");
    }

    /// Makes `changed` the open blueprint and its copy in the store, where
    /// the open blueprint has its counterpart there; tells the operator
    /// where it has none.
    fn commit(&mut self, changed: Blueprint, notice: Option<SaveNotice>) -> (done: bool)
        ensures
            final(self).changed_or_not_found(&*old(self), changed@, notice, done),
            old(self).well_formed() ==> final(self).well_formed(),
    {
        if self.counterpart_found() {
            self.sync_store(changed, notice);
            true
        } else {
            self.report_not_found();
            false
        }
    }

    /// Closes the open blueprint where the selection is at `index`.
    fn close_if_selected(&mut self, index: usize)
        ensures
            *final(self) == (App {
                current_blueprint: if index == old(self).selected_blueprint_index {
                    None
                } else {
                    old(self).current_blueprint
                },
                ..*old(self)
            }),
    {
        if index == self.selected_blueprint_index {
            self.current_blueprint = None;
        }
    }

    /// Writes the open blueprint over its copy in the store and notes that
    /// a save is due.
    fn sync_store(&mut self, blueprint: Blueprint, notice: Option<SaveNotice>)
        requires
            old(self).selected_blueprint_index < old(self).blueprint_store@.len(),
        ensures
            final(self).after_change(&*old(self), blueprint@, notice),
    {
        let copy = blueprint.clone();
        self.blueprint_store.replace_blueprint(self.selected_blueprint_index, copy);
        self.current_blueprint = Some(blueprint);
        self.pending_save = true;
        self.pending_notice = notice;
    }

    /// What is to be handed to the store to be saved: the blueprints, whole
    /// and in their order, where a save is due; nothing where none is.
    pub fn save_request(&self) -> (r: Option<BlueprintStore>)
        ensures
            r is Some == self.pending_save,
            r matches Some(store) ==> store@ == self.blueprint_store@,
    {
        if self.pending_save {
            Some(self.blueprint_store.clone())
        } else {
            None
        }
    }

    /// Takes the outcome of saving the store and tells the operator of it.
    /// A save that failed rolls nothing back: the blueprints stay as they
    /// are and the save stays due.
    pub fn save_blueprints(&mut self, saved: bool)
        ensures
            old(self).well_formed() ==> final(self).well_formed(),
            final(self).after_save(&*old(self), saved),
    {
        if saved {
            self.message = String::from_str(self.i18n.blueprint_saved());
            self.pending_save = false;
        } else {
            self.message = String::from_str("Save failed");
            self.pending_notice = None;
        }
    }

    /// Tells the operator of the change that was last saved, where that
    /// change has a notice of its own: a deletion, an added or a removed
    /// resource. To be called after `save_blueprints`.
    pub fn announce_change(&mut self)
        ensures
            old(self).well_formed() ==> final(self).well_formed(),
            final(self).after_announce(&*old(self)),
    {
        match self.pending_notice {
            Some(notice) => {
                let text = match notice {
                    SaveNotice::Deleted => self.i18n.blueprint_deleted(),
                    SaveNotice::ResourceAdded => self.i18n.resource_added(),
                    SaveNotice::ResourceDeleted => self.i18n.resource_deleted(),
                };
                self.message = String::from_str(text);
                self.pending_notice = None;
            },
            None => {},
        }
    }

    /// Makes a blueprint of the given name, with no resources, after those
    /// in the store and selects it; a save is then due. A name that
    /// trimming leaves empty is refused and changes nothing.
    pub fn create_blueprint(&mut self, name: String) -> (r: Result<(), ValidationError>)
        ensures
            old(self).well_formed() ==> final(self).well_formed(),
            final(self).after_create(&*old(self), name@, r is Ok),
            r matches Err(e) ==> e == ValidationError::EmptyName,
    {
        if crate::text::is_blank(name.as_str()) {
            return Err(ValidationError::EmptyName);
        }
        let blueprint = Blueprint::new(name);
        self.blueprint_store.add_blueprint(blueprint);
        self.selected_blueprint_index = self.blueprint_store.len() - 1;
        self.pending_save = true;
        self.pending_notice = None;
        Ok(())
    }

    /// Removes the blueprint at `index` from the store, so that those after
    /// it move down by one place, and keeps the selection within bounds; a
    /// save is then due. Where the blueprint under the selection is the one
    /// deleted, the open blueprint is closed. Returns whether there was such
    /// a blueprint; where there was none, nothing changes.
    pub fn delete_blueprint(&mut self, index: usize) -> (deleted: bool)
        ensures
            old(self).well_formed() ==> final(self).well_formed(),
            final(self).after_delete(&*old(self), index as int, deleted),
    {
        let count: usize = self.blueprint_store.len();
        if index >= count {
            return false;
        }
        self.blueprint_store.remove_blueprint(index);
        self.close_if_selected(index);
        self.selected_blueprint_index = clamp_selection(self.selected_blueprint_index, count - 1);
        self.pending_save = true;
        self.pending_notice = Some(SaveNotice::Deleted);
        true
    }

    /// Adds a resource at the end of the open blueprint and brings the
    /// store's copy in line; a save is then due. Returns whether it did.
    /// Where no blueprint is open, nothing changes; where the open blueprint
    /// has no counterpart in the store, nothing changes but that the
    /// operator is told.
    pub fn add_resource_to_current_blueprint(&mut self, resource: BlueprintResource) -> (added:
        bool)
        ensures
            old(self).well_formed() ==> final(self).well_formed(),
            final(self).after_add(&*old(self), resource@, added),
    {
        let mut changed = match &self.current_blueprint {
            Some(blueprint) => blueprint.clone(),
            None => {
                return false;
            },
        };
        changed.add_resource(resource);
        self.commit(changed, Some(SaveNotice::ResourceAdded))
    }

    /// Removes the resource at `index` from the open blueprint and brings
    /// the store's copy in line; a save is then due. Returns whether it
    /// did; without an open blueprint, or without a resource at `index`,
    /// nothing changes. Where the open blueprint has no counterpart in the
    /// store, nothing changes but that the operator is told.
    pub fn remove_resource_from_current_blueprint(&mut self, index: usize) -> (removed: bool)
        ensures
            old(self).well_formed() ==> final(self).well_formed(),
            final(self).after_remove(&*old(self), index as int, removed),
    {
        let mut changed = match &self.current_blueprint {
            Some(blueprint) => {
                if index >= blueprint.resources.len() {
                    return false;
                }
                blueprint.clone()
            },
            None => {
                return false;
            },
        };
        changed.remove_resource(index);
        self.commit(changed, Some(SaveNotice::ResourceDeleted))
    }

    /// Lets the resource at `index` of the open blueprint change places
    /// with the one before it, and brings the store's copy in line; a save
    /// is then due. Returns whether it did; the first resource, an index
    /// beyond the list and a session without an open blueprint change
    /// nothing. Where the open blueprint has no counterpart in the store,
    /// nothing changes but that the operator is told.
    pub fn move_resource_up(&mut self, index: usize) -> (moved: bool)
        ensures
            old(self).well_formed() ==> final(self).well_formed(),
            final(self).after_move_up(&*old(self), index as int, moved),
    {
        let mut changed = match &self.current_blueprint {
            Some(blueprint) => {
                if index == 0 || index >= blueprint.resources.len() {
                    return false;
                }
                blueprint.clone()
            },
            None => {
                return false;
            },
        };
        changed.move_up(index);
        self.commit(changed, None)
    }

    /// Lets the resource at `index` of the open blueprint change places
    /// with the one after it, and brings the store's copy in line; a save
    /// is then due. Returns whether it did; the last resource, an index
    /// beyond the list and a session without an open blueprint change
    /// nothing. Where the open blueprint has no counterpart in the store,
    /// nothing changes but that the operator is told.
    pub fn move_resource_down(&mut self, index: usize) -> (moved: bool)
        ensures
            old(self).well_formed() ==> final(self).well_formed(),
            final(self).after_move_down(&*old(self), index as int, moved),
    {
        let mut changed = match &self.current_blueprint {
            Some(blueprint) => {
                if blueprint.resources.len() == 0 || index >= blueprint.resources.len() - 1 {
                    return false;
                }
                blueprint.clone()
            },
            None => {
                return false;
            },
        };
        changed.move_down(index);
        self.commit(changed, None)
    }

    /// The first resource of a blueprint never moves up: the move is
    /// refused and the state stays as it was, whatever the blueprint holds.
    pub proof fn lemma_first_stays(before: App, after: App, moved: bool)
        requires
            after.after_move_up(&before, 0, moved),
        ensures
            !moved,
            after == before,
    {
    }

    /// The last resource of a blueprint never moves down: the move is
    /// refused and the state stays as it was, also where no blueprint is
    /// open.
    pub proof fn lemma_last_stays(before: App, after: App, index: int, moved: bool)
        requires
            before.current_blueprint matches Some(blueprint) ==> index
                == blueprint@.resources.len() - 1,
            after.after_move_down(&before, index, moved),
        ensures
            !moved,
            after == before,
    {
    }

    /// Deleting the last blueprint of several while it is selected moves
    /// the selection down by exactly one.
    pub proof fn lemma_delete_selected_last(before: App, after: App, deleted: bool)
        requires
            before.blueprint_store@.len() > 1,
            before.selected_blueprint_index == before.blueprint_store@.len() - 1,
            after.after_delete(&before, before.selected_blueprint_index as int, deleted),
        ensures
            deleted,
            after.selected_blueprint_index == before.selected_blueprint_index - 1,
    {
    }

    /// Deleting any blueprint while the first is selected leaves the
    /// selection on the first.
    pub proof fn lemma_delete_keeps_first(before: App, after: App, index: int, deleted: bool)
        requires
            before.selected_blueprint_index == 0,
            after.after_delete(&before, index, deleted),
        ensures
            after.selected_blueprint_index == 0,
    {
    }

    /// After every change of the open blueprint, the store's copy under the
    /// selection equals the open blueprint.
    pub proof fn lemma_change_keeps_sync(
        before: App,
        after: App,
        changed: BlueprintView,
        notice: Option<SaveNotice>,
    )
        requires
            after.after_change(&before, changed, notice),
            before.selected_blueprint_index < before.blueprint_store@.len(),
        ensures
            open_view(after.current_blueprint) == Some(
                after.blueprint_store@[after.selected_blueprint_index as int],
            ),
            after.has_counterpart(),
    {
    }

    /// An open blueprint without its counterpart in the store is never
    /// changed, and never written over another blueprint: whatever change
    /// is asked for, store and open blueprint stay as they are and no save
    /// becomes due.
    pub proof fn lemma_stale_blueprint_is_left_alone(
        before: App,
        after: App,
        changed: BlueprintView,
        notice: Option<SaveNotice>,
        done: bool,
    )
        requires
            !before.has_counterpart(),
            after.changed_or_not_found(&before, changed, notice, done),
        ensures
            !done,
            after.blueprint_store == before.blueprint_store,
            after.current_blueprint == before.current_blueprint,
            after.pending_save == before.pending_save,
            after.message@ == "Blueprint not found"@,
    {
    }

    /// Deleting the blueprint under the selection closes the open
    /// blueprint; deleting any other leaves it open.
    pub proof fn lemma_delete_closes_the_selected(
        before: App,
        after: App,
        index: int,
        deleted: bool,
    )
        requires
            after.after_delete(&before, index, deleted),
            deleted,
        ensures
            index == before.selected_blueprint_index ==> after.current_blueprint is None,
            index != before.selected_blueprint_index ==> after.current_blueprint
                == before.current_blueprint,
    {
    }

    /// Whatever the state, a save that went through is told as saved and
    /// one that failed as failed; neither touches the blueprints, and a
    /// failed save stays due.
    pub proof fn lemma_save_outcome_is_told(before: App, after: App, saved: bool)
        requires
            after.after_save(&before, saved),
        ensures
            after.blueprint_store == before.blueprint_store,
            after.current_blueprint == before.current_blueprint,
            saved ==> after.message@ == save_message(before.i18n.lang, true)
                && !after.pending_save,
            !saved ==> after.message@ == "Save failed"@ && after.pending_save
                == before.pending_save,
    {
    }
}

/// What a finished fetch hands back.
#[derive(Debug)]
pub enum TaskResult {
    Resources(Vec<AwsResource>),
    Ec2(Ec2Detail),
    SecurityGroup(SecurityGroupDetail),
    LoadBalancer(LoadBalancerDetail),
    Ecr(EcrDetail),
    Asg(AsgDetail),
    Preview(String),
    /// The provider failed, or gave nothing that could be read.
    Failed,
}

/// What became of a result.
#[derive(Debug, Clone, Copy, PartialEq, Eq, Structural)]
pub enum Completion {
    /// The result belongs to no task in flight and was dropped.
    Ignored,
    /// The result was taken and the task is done.
    Applied,
    /// The task failed and was given up.
    Failed,
}

/// What is to be done after a step of a network detail.
#[derive(Debug, Clone, Copy, PartialEq, Eq, Structural)]
pub enum StepAction {
    /// The step was not awaited; nothing changed.
    Rejected,
    /// The step with this number is to be fetched next.
    Fetch(u8),
    /// The detail is complete.
    Done,
}

/// What is to be done after a step of a blueprint's load.
#[derive(Debug, Clone, Copy, PartialEq, Eq, Structural)]
pub enum CursorAction {
    /// No such step was awaited; nothing changed.
    Rejected,
    /// The detail of the resource at this index is to be fetched next.
    Fetch(usize),
    /// Every resource has been gone through and the document is ready.
    Done,
}

/// Whether `result` is what `task` asked for.
pub open spec fn answers(task: LoadingTask, result: TaskResult) -> bool {
    match (task.shape(), result) {
        (TaskShape::List(_), TaskResult::Resources(_)) => true,
        (TaskShape::Detail(ResourceType::Ec2), TaskResult::Ec2(_)) => true,
        (TaskShape::Detail(ResourceType::SecurityGroup), TaskResult::SecurityGroup(_)) => true,
        (TaskShape::Detail(ResourceType::LoadBalancer), TaskResult::LoadBalancer(_)) => true,
        (TaskShape::Detail(ResourceType::Ecr), TaskResult::Ecr(_)) => true,
        (TaskShape::Detail(ResourceType::Asg), TaskResult::Asg(_)) => true,
        (TaskShape::Preview, TaskResult::Preview(_)) => true,
        _ => false,
    }
}

/// The titles of the resources at the given indices.
pub open spec fn titles_at(
    resources: Seq<crate::blueprint::BlueprintResourceView>,
    indices: Seq<int>,
) -> Seq<Seq<char>> {
    Seq::new(indices.len(), |k: int| resources[indices[k]].title())
}

/// What the operator is told at the end of a blueprint's load: nothing
/// where every detail came, else which resources were left out.
pub open spec fn skipped_message(
    lang: Language,
    resources: Seq<crate::blueprint::BlueprintResourceView>,
    left_out: Seq<int>,
) -> Seq<char> {
    if left_out.len() == 0 {
        Seq::empty()
    } else {
        lang.pick("ì¡°íšŒ ì‹¤íŒ¨"@, "Query failed"@) + ": "@ + crate::text::joined(titles_at(resources, left_out), ", "@)
    }
}

impl App {
    /// Whether the detail of the given kind is populated.
    pub open spec fn populated(&self, kind: ResourceType) -> bool {
        match kind {
            ResourceType::Ec2 => self.ec2_detail is Some,
            ResourceType::Network => self.network_detail is Some,
            ResourceType::SecurityGroup => self.sg_detail is Some,
            ResourceType::LoadBalancer => self.lb_detail is Some,
            ResourceType::Ecr => self.ecr_detail is Some,
            ResourceType::Asg => self.asg_detail is Some,
        }
    }

    /// Whether `kind` is the kind of the current resource: it is populated
    /// and no kind before it in the order of priority is.
    pub open spec fn is_current(&self, kind: ResourceType) -> bool {
        &&& self.populated(kind)
        &&& forall|other: ResourceType| #[trigger]
            self.populated(other) ==> kind.rank() <= other.rank()
    }

    /// How many of the six details are populated.
    pub open spec fn detail_count(&self) -> int {
        (if self.ec2_detail is Some {
            1int
        } else {
            0
        }) + (if self.network_detail is Some {
            1int
        } else {
            0
        }) + (if self.sg_detail is Some {
            1int
        } else {
            0
        }) + (if self.lb_detail is Some {
            1int
        } else {
            0
        }) + (if self.ecr_detail is Some {
            1int
        } else {
            0
        }) + (if self.asg_detail is Some {
            1int
        } else {
            0
        })
    }

    /// At most one detail is populated.
    pub open spec fn one_detail_at_most(&self) -> bool {
        self.detail_count() <= 1
    }

    /// Identifier and name of the current resource.
    pub open spec fn current_identity(&self) -> Option<(Seq<char>, Seq<char>)> {
        if let Some(detail) = self.ec2_detail {
            Some((detail.instance_id@, detail.name@))
        } else if let Some(detail) = self.network_detail {
            Some((detail.id@, detail.name@))
        } else if let Some(detail) = self.sg_detail {
            Some((detail.id@, detail.name@))
        } else if let Some(detail) = self.lb_detail {
            Some((detail.arn@, detail.name@))
        } else if let Some(detail) = self.ecr_detail {
            Some((detail.name@, detail.name@))
        } else if let Some(detail) = self.asg_detail {
            Some((detail.name@, detail.name@))
        } else {
            None
        }
    }

    /// The kind of the detail that is shown: of the populated details, the
    /// first in the order of priority.
    pub fn get_current_resource_type(&self) -> (r: Option<ResourceType>)
        ensures
            r matches Some(kind) ==> self.is_current(kind),
            r is None ==> forall|kind: ResourceType| !self.populated(kind),
    {
        if self.ec2_detail.is_some() {
            assert(self.populated(ResourceType::Ec2));
            Some(ResourceType::Ec2)
        } else if self.network_detail.is_some() {
            assert(self.populated(ResourceType::Network));
            Some(ResourceType::Network)
        } else if self.sg_detail.is_some() {
            assert(self.populated(ResourceType::SecurityGroup));
            Some(ResourceType::SecurityGroup)
        } else if self.lb_detail.is_some() {
            assert(self.populated(ResourceType::LoadBalancer));
            Some(ResourceType::LoadBalancer)
        } else if self.ecr_detail.is_some() {
            assert(self.populated(ResourceType::Ecr));
            Some(ResourceType::Ecr)
        } else if self.asg_detail.is_some() {
            assert(self.populated(ResourceType::Asg));
            Some(ResourceType::Asg)
        } else {
            None
        }
    }

    /// Identifier and name of the resource whose detail is shown, by the
    /// same order of priority.
    pub fn get_current_resource_info(&self) -> (r: Option<(String, String)>)
        ensures
            r matches Some((id, name)) ==> self.current_identity() == Some((id@, name@)),
            r is None ==> self.current_identity() is None,
    {
        if let Some(detail) = &self.ec2_detail {
            Some((detail.instance_id.clone(), detail.name.clone()))
        } else if let Some(detail) = &self.network_detail {
            Some((detail.id.clone(), detail.name.clone()))
        } else if let Some(detail) = &self.sg_detail {
            Some((detail.id.clone(), detail.name.clone()))
        } else if let Some(detail) = &self.lb_detail {
            Some((detail.arn.clone(), detail.name.clone()))
        } else if let Some(detail) = &self.ecr_detail {
            Some((detail.name.clone(), detail.name.clone()))
        } else if let Some(detail) = &self.asg_detail {
            Some((detail.name.clone(), detail.name.clone()))
        } else {
            None
        }
    }

    /// The state with no task in flight and the checklist cleared.
    pub open spec fn settled(self) -> App {
        App {
            loading: false,
            loading_task: LoadingTask::Idle,
            loading_progress: LoadingProgress::cleared(),
            network_draft: None,
            ..self
        }
    }

    /// The state after `screen` was entered: the screen is shown, whatever
    /// was in flight is given up, and the checklist is cleared.
    pub open spec fn entered(self, screen: Screen) -> App {
        App { screen, ..self.settled() }
    }

    /// Shows `screen`, from whichever screen is shown. A task in flight is
    /// given up, so that its result will find no task to go to, and the
    /// checklist is cleared.
    pub fn enter(&mut self, screen: Screen)
        ensures
            old(self).well_formed() ==> final(self).well_formed(),
            *final(self) == old(self).entered(screen),
    {
        self.screen = screen;
        self.loading = false;
        self.loading_task = LoadingTask::Idle;
        self.loading_progress.reset();
        self.network_draft = None;
    }

    /// Whether `task` can begin in this state, were nothing in flight:
    /// there is a task at all, a task of several steps starts at its first,
    /// and a blueprint's load has an open blueprint with a resource to
    /// start from.
    pub open spec fn startable(&self, task: LoadingTask) -> bool {
        match task {
            LoadingTask::Idle => false,
            LoadingTask::LoadVpcDetail(_, step) => step == 0,
            LoadingTask::LoadBlueprintResources(index) => {
                &&& index == 0
                &&& self.current_blueprint matches Some(blueprint)
                &&& blueprint@.resources.len() > 0
            },
            _ => true,
        }
    }

    /// The state after `task` was to begin, and whether it began.
    pub open spec fn after_begin(&self, before: &App, task: LoadingTask, begun: bool) -> bool {
        &&& begun == (!before.loading && before.startable(task))
        &&& !begun ==> *self == *before
        &&& begun ==> match task.shape() {
            TaskShape::NetworkSteps => {
                &&& self.network_draft matches Some(draft) && draft.blank()
                &&& *self == (App {
                    loading: true,
                    loading_task: task,
                    loading_progress: LoadingProgress::cleared(),
                    network_draft: self.network_draft,
                    ..*before
                })
            },
            TaskShape::BlueprintSteps => {
                &&& self.blueprint_markdown_parts@ == Seq::<Option<String>>::empty()
                &&& *self == (App {
                    loading: true,
                    loading_task: task,
                    blueprint_resource_index: 0,
                    blueprint_markdown_parts: self.blueprint_markdown_parts,
                    ..*before
                })
            },
            _ => *self == (App { loading: true, loading_task: task, ..*before }),
        }
    }

    /// Tells whether `task` can begin, were nothing in flight.
    fn can_start(&self, task: &LoadingTask) -> (r: bool)
        ensures
            r == self.startable(*task),
    {
        match task {
            LoadingTask::Idle => false,
            LoadingTask::LoadVpcDetail(_, step) => *step == 0,
            LoadingTask::LoadBlueprintResources(index) => {
                if *index != 0 {
                    false
                } else {
                    match &self.current_blueprint {
                        Some(blueprint) => {
                            assert(blueprint@.resources.len() == blueprint.resources@.len());
                            blueprint.resources.len() > 0
                        },
                        None => false,
                    }
                }
            },
            _ => true,
        }
    }

    /// Puts `task` in flight. Returns whether it did: while a task is in
    /// flight a second one is refused, not queued, and nothing changes. A
    /// network detail starts with a cleared checklist and an empty draft, a
    /// blueprint's load with no detail texts.
    pub fn begin_task(&mut self, task: LoadingTask) -> (begun: bool)
        ensures
            old(self).well_formed() ==> final(self).well_formed(),
            final(self).after_begin(&*old(self), task, begun),
    {
        if self.loading || !self.can_start(&task) {
            return false;
        }
        match &task {
            LoadingTask::LoadVpcDetail(_, _) => {
                self.start_network_steps();
            },
            LoadingTask::LoadBlueprintResources(_) => {
                self.blueprint_resource_index = 0;
                self.blueprint_markdown_parts = Vec::new();
            },
            _ => {},
        }
        self.loading = true;
        self.loading_task = task;
        true
    }

    /// Clears the checklist and lays out an empty draft.
    fn start_network_steps(&mut self)
        ensures
            final(self).network_draft matches Some(draft) && draft.blank(),
            *final(self) == (App {
                loading_progress: LoadingProgress::cleared(),
                network_draft: final(self).network_draft,
                ..*old(self)
            }),
    {
        self.loading_progress.reset();
        self.network_draft = Some(NetworkDetail::empty());
    }

    /// Whether the step `step` of a network detail is awaited.
    pub open spec fn awaits_step(&self, step: int) -> bool {
        &&& self.loading
        &&& self.loading_task matches LoadingTask::LoadVpcDetail(_, awaited)
        &&& awaited == step
        &&& 0 <= step < 7
        &&& self.network_draft is Some
    }

    /// The state after the part that `step` brought was handed in, and
    /// what is to be done next.
    pub open spec fn after_step(
        &self,
        before: &App,
        step: int,
        part: NetworkPart,
        action: StepAction,
    ) -> bool {
        if !(before.awaits_step(step) && part.step() == step) {
            action == StepAction::Rejected && *self == *before
        } else if step < 6 {
            &&& action == StepAction::Fetch((step + 1) as u8)
            &&& *self == (App {
                loading_task: LoadingTask::LoadVpcDetail(
                    before.loading_task->LoadVpcDetail_0,
                    (step + 1) as u8,
                ),
                loading_progress: before.loading_progress.marked(step),
                network_draft: Some(before.network_draft->0.with_part(part)),
                ..*before
            })
        } else {
            &&& action == StepAction::Done
            &&& *self == (App {
                loading: false,
                loading_task: LoadingTask::Idle,
                loading_progress: before.loading_progress.marked(step),
                network_draft: None,
                network_detail: Some(before.network_draft->0.with_part(part)),
                ec2_detail: None,
                sg_detail: None,
                lb_detail: None,
                ecr_detail: None,
                asg_detail: None,
                ..*before
            })
        }
    }

    /// Takes what step `step` of the network detail in flight has brought.
    /// The step's flag goes up and the part joins the draft. After the last
    /// step the draft becomes the network detail, in place of whatever
    /// detail was shown, and the task is done; after any other the next
    /// step is asked for. A step that is not the awaited one, or a part of
    /// another step, changes nothing.
    pub fn advance_multistep(&mut self, step: u8, part: NetworkPart) -> (action: StepAction)
        ensures
            old(self).well_formed() ==> final(self).well_formed(),
            final(self).after_step(&*old(self), step as int, part, action),
    {
        let awaited = self.loading && step < STEP_COUNT && part.step_number() == step
            && self.network_draft.is_some() && match &self.loading_task {
            LoadingTask::LoadVpcDetail(_, current) => *current == step,
            _ => false,
        };
        if !awaited {
            return StepAction::Rejected;
        }
        let draft = match self.network_draft.take() {
            Some(draft) => draft.merge(part),
            None => {
                return StepAction::Rejected;
            },
        };
        self.loading_progress.mark(step);
        if step < STEP_COUNT - 1 {
            let mut task = LoadingTask::Idle;
            core::mem::swap(&mut task, &mut self.loading_task);
            match task {
                LoadingTask::LoadVpcDetail(id, _) => {
                    self.loading_task = LoadingTask::LoadVpcDetail(id, step + 1);
                },
                _ => {},
            }
            self.network_draft = Some(draft);
            StepAction::Fetch(step + 1)
        } else {
            self.clear_details();
            self.network_detail = Some(draft);
            self.loading = false;
            self.loading_task = LoadingTask::Idle;
            StepAction::Done
        }
    }

    /// Empties all six details.
    fn clear_details(&mut self)
        ensures
            *final(self) == (App {
                ec2_detail: None,
                network_detail: None,
                sg_detail: None,
                lb_detail: None,
                ecr_detail: None,
                asg_detail: None,
                ..*old(self)
            }),
    {
        self.ec2_detail = None;
        self.network_detail = None;
        self.sg_detail = None;
        self.lb_detail = None;
        self.ecr_detail = None;
        self.asg_detail = None;
    }
}

impl LoadingTask {
    /// The kind whose listing the task asks for, if it asks for one.
    pub fn list_kind(&self) -> (r: Option<ResourceType>)
        ensures
            r == match self.shape() {
                TaskShape::List(kind) => Some(kind),
                _ => None,
            },
    {
        match self {
            LoadingTask::RefreshEc2 | LoadingTask::LoadEc2 => Some(ResourceType::Ec2),
            LoadingTask::RefreshVpc | LoadingTask::LoadVpc => Some(ResourceType::Network),
            LoadingTask::RefreshSecurityGroup | LoadingTask::LoadSecurityGroup => Some(
                ResourceType::SecurityGroup,
            ),
            LoadingTask::RefreshLoadBalancer | LoadingTask::LoadLoadBalancer => Some(
                ResourceType::LoadBalancer,
            ),
            LoadingTask::RefreshEcr | LoadingTask::LoadEcr => Some(ResourceType::Ecr),
            LoadingTask::RefreshAsg | LoadingTask::LoadAsg => Some(ResourceType::Asg),
            _ => None,
        }
    }
}

impl App {
    /// The state after a failure was reported while `before` had a task in
    /// flight that one failure ends: the task is given up, the operator is
    /// told, and everything fetched earlier stays. A network detail leaves
    /// its checklist as far as it came and drops its draft.
    pub open spec fn after_failure(&self, before: &App) -> bool {
        match before.loading_task {
            LoadingTask::LoadVpcDetail(id, _) => {
                &&& self.message@ == crate::i18n::network_unavailable_text(before.i18n.lang, id@)
                &&& *self == (App {
                    loading: false,
                    loading_task: LoadingTask::Idle,
                    network_draft: None,
                    message: self.message,
                    ..*before
                })
            },
            _ => {
                &&& self.message@ == before.i18n.lang.pick("ì¡°íšŒ ì‹¤íŒ¨"@, "Query failed"@)
                &&& *self == (App {
                    loading: false,
                    loading_task: LoadingTask::Idle,
                    message: self.message,
                    ..*before
                })
            },
        }
    }

    /// The state with no task in flight.
    pub open spec fn finished(self) -> App {
        App { loading: false, loading_task: LoadingTask::Idle, ..self }
    }

    /// The state with no detail populated.
    pub open spec fn bare(self) -> App {
        App {
            ec2_detail: None,
            network_detail: None,
            sg_detail: None,
            lb_detail: None,
            ecr_detail: None,
            asg_detail: None,
            ..self
        }
    }

    /// The state with `rows` as the listing of the resources of `kind`.
    pub open spec fn with_rows(self, kind: ResourceType, rows: Vec<AwsResource>) -> App {
        match kind {
            ResourceType::Ec2 => App { instances: rows, ..self },
            ResourceType::Network => App { vpcs: rows, ..self },
            ResourceType::SecurityGroup => App { security_groups: rows, ..self },
            ResourceType::LoadBalancer => App { load_balancers: rows, ..self },
            ResourceType::Ecr => App { ecr_repositories: rows, ..self },
            ResourceType::Asg => App { auto_scaling_groups: rows, ..self },
        }
    }

    /// The state with `result` put in its place and the task done. A
    /// listing goes where the kind of the finished task says; a detail
    /// takes the place of whichever detail was shown.
    pub open spec fn with_result(self, result: TaskResult) -> App {
        match result {
            TaskResult::Resources(rows) => match self.loading_task.shape() {
                TaskShape::List(kind) => self.finished().with_rows(kind, rows),
                _ => self.finished(),
            },
            TaskResult::Ec2(detail) => App { ec2_detail: Some(detail), ..self.finished().bare() },
            TaskResult::SecurityGroup(detail) => App {
                sg_detail: Some(detail),
                ..self.finished().bare()
            },
            TaskResult::LoadBalancer(detail) => App {
                lb_detail: Some(detail),
                ..self.finished().bare()
            },
            TaskResult::Ecr(detail) => App { ecr_detail: Some(detail), ..self.finished().bare() },
            TaskResult::Asg(detail) => App { asg_detail: Some(detail), ..self.finished().bare() },
            TaskResult::Preview(text) => App { preview_content: text, ..self.finished() },
            TaskResult::Failed => self.finished(),
        }
    }

    /// Whether one failure ends the task in flight: it does for every task
    /// but a blueprint's load, which goes on past a failed resource.
    pub open spec fn fails_whole(&self) -> bool {
        &&& self.loading
        &&& self.loading_task.shape() !is NoTask
        &&& self.loading_task.shape() !is BlueprintSteps
    }

    /// The state after `result` was handed in, and what became of it.
    pub open spec fn after_result(
        &self,
        before: &App,
        result: TaskResult,
        completion: Completion,
    ) -> bool {
        if result is Failed && before.fails_whole() {
            completion == Completion::Failed && self.after_failure(before)
        } else if before.loading && answers(before.loading_task, result) {
            completion == Completion::Applied && *self == before.with_result(result)
        } else {
            completion == Completion::Ignored && *self == *before
        }
    }

    /// Gives up the task in flight and tells the operator why.
    fn fail_task(&mut self)
        requires
            old(self).fails_whole(),
        ensures
            final(self).after_failure(&*old(self)),
    {
        let mut task = LoadingTask::Idle;
        core::mem::swap(&mut task, &mut self.loading_task);
        match task {
            LoadingTask::LoadVpcDetail(id, _) => {
                self.message = self.i18n.network_detail_unavailable(id.as_str());
                self.network_draft = None;
            },
            _ => {
                self.message = String::from_str(self.i18n.query_failed());
            },
        }
        self.loading = false;
    }

    /// Tells whether one failure ends the task in flight.
    fn one_failure_ends(&self) -> (r: bool)
        ensures
            r == self.fails_whole(),
    {
        self.loading && match &self.loading_task {
            LoadingTask::Idle => false,
            LoadingTask::LoadBlueprintResources(_) => false,
            _ => true,
        }
    }

    /// Takes the result of the task in flight. A result of the kind that
    /// the task asked for is put in its place and ends the task; a detail
    /// replaces whichever detail was shown. A failure ends the task, tells
    /// the operator, and leaves what was fetched earlier untouched. Any
    /// other result belongs to a task that was given up and is dropped.
    pub fn complete_task(&mut self, result: TaskResult) -> (completion: Completion)
        ensures
            old(self).well_formed() ==> final(self).well_formed(),
            final(self).after_result(&*old(self), result, completion),
    {
        if !self.loading {
            return Completion::Ignored;
        }
        match result {
            TaskResult::Failed => {
                if self.one_failure_ends() {
                    self.fail_task();
                    Completion::Failed
                } else {
                    Completion::Ignored
                }
            },
            TaskResult::Resources(rows) => self.take_rows(rows),
            TaskResult::Preview(text) => {
                match &self.loading_task {
                    LoadingTask::RefreshPreview => {
                        self.preview_content = text;
                        self.loading = false;
                        self.loading_task = LoadingTask::Idle;
                        Completion::Applied
                    },
                    _ => Completion::Ignored,
                }
            },
            TaskResult::Ec2(detail) => {
                match &self.loading_task {
                    LoadingTask::LoadEc2Detail(_) => {
                        self.clear_details();
                        self.ec2_detail = Some(detail);
                        self.loading = false;
                        self.loading_task = LoadingTask::Idle;
                        Completion::Applied
                    },
                    _ => Completion::Ignored,
                }
            },
            TaskResult::SecurityGroup(detail) => {
                match &self.loading_task {
                    LoadingTask::LoadSecurityGroupDetail(_) => {
                        self.clear_details();
                        self.sg_detail = Some(detail);
                        self.loading = false;
                        self.loading_task = LoadingTask::Idle;
                        Completion::Applied
                    },
                    _ => Completion::Ignored,
                }
            },
            TaskResult::LoadBalancer(detail) => {
                match &self.loading_task {
                    LoadingTask::LoadLoadBalancerDetail(_) => {
                        self.clear_details();
                        self.lb_detail = Some(detail);
                        self.loading = false;
                        self.loading_task = LoadingTask::Idle;
                        Completion::Applied
                    },
                    _ => Completion::Ignored,
                }
            },
            TaskResult::Ecr(detail) => {
                match &self.loading_task {
                    LoadingTask::LoadEcrDetail(_) => {
                        self.clear_details();
                        self.ecr_detail = Some(detail);
                        self.loading = false;
                        self.loading_task = LoadingTask::Idle;
                        Completion::Applied
                    },
                    _ => Completion::Ignored,
                }
            },
            TaskResult::Asg(detail) => {
                match &self.loading_task {
                    LoadingTask::LoadAsgDetail(_) => {
                        self.clear_details();
                        self.asg_detail = Some(detail);
                        self.loading = false;
                        self.loading_task = LoadingTask::Idle;
                        Completion::Applied
                    },
                    _ => Completion::Ignored,
                }
            },
        }
    }

    /// Puts a listing where the task in flight says, if it asked for one.
    fn take_rows(&mut self, rows: Vec<AwsResource>) -> (completion: Completion)
        requires
            old(self).loading,
        ensures
            final(self).after_result(&*old(self), TaskResult::Resources(rows), completion),
    {
        match self.loading_task.list_kind() {
            Some(kind) => {
                self.loading = false;
                self.loading_task = LoadingTask::Idle;
                self.put_rows(kind, rows);
                Completion::Applied
            },
            None => Completion::Ignored,
        }
    }

    /// Makes `rows` the listing of the resources of `kind`.
    fn put_rows(&mut self, kind: ResourceType, rows: Vec<AwsResource>)
        ensures
            *final(self) == old(self).with_rows(kind, rows),
    {
        match kind {
            ResourceType::Ec2 => {
                self.instances = rows;
            },
            ResourceType::Network => {
                self.vpcs = rows;
            },
            ResourceType::SecurityGroup => {
                self.security_groups = rows;
            },
            ResourceType::LoadBalancer => {
                self.load_balancers = rows;
            },
            ResourceType::Ecr => {
                self.ecr_repositories = rows;
            },
            ResourceType::Asg => {
                self.auto_scaling_groups = rows;
            },
        }
    }
}

/// Builds what the operator is told at the end of a blueprint's load.
fn skipped_notice(i18n: &I18n, blueprint: &Blueprint, left_out: &Vec<usize>) -> (r: String)
    requires
        forall|k: int|
            0 <= k < left_out@.len() ==> (#[trigger] left_out@[k]) < blueprint.resources@.len(),
    ensures
        r@ == skipped_message(i18n.lang, blueprint@.resources, index_views(left_out@)),
{
    let n: usize = left_out.len();
    if n == 0 {
        return String::new();
    }
    let ghost titles = titles_at(blueprint@.resources, index_views(left_out@));
    let mut names = crate::text::Lines::new();
    let mut k: usize = 0;
    assert(names@ =~= titles.take(0));
    while k < n
        invariant
            n == left_out@.len(),
            k <= n,
            titles == titles_at(blueprint@.resources, index_views(left_out@)),
            forall|j: int|
                0 <= j < left_out@.len() ==> (#[trigger] left_out@[j])
                    < blueprint.resources@.len(),
            names@ == titles.take(k as int),
        decreases n - k,
    {
        let index: usize = left_out[k];
        names.push(crate::document::resource_title(&blueprint.resources[index]));
        assert(titles.take(k + 1) =~= titles.take(k as int).push(titles[k as int]));
        k += 1;
    }
    assert(titles.take(n as int) == titles);
    let mut out = String::from_str(i18n.query_failed());
    out.append(": ");
    out.append(names.join(", ").as_str());
    out
}

impl App {
    /// Whether the detail text of a resource of the open blueprint is
    /// awaited: a blueprint's load is in flight, its cursor points at a
    /// resource, and one text has come for each resource before it.
    pub open spec fn awaits_resource(&self) -> bool {
        &&& self.loading
        &&& self.loading_task matches LoadingTask::LoadBlueprintResources(index)
        &&& self.current_blueprint matches Some(blueprint)
        &&& index < blueprint@.resources.len()
        &&& self.blueprint_markdown_parts@.len() == index
    }

    /// The state after the detail text of the awaited resource, or the
    /// news that there is none, was handed in; and what is to be done next.
    pub open spec fn after_resource(
        &self,
        before: &App,
        section: Option<String>,
        action: CursorAction,
    ) -> bool {
        if !before.awaits_resource() {
            action == CursorAction::Rejected && *self == *before
        } else {
            let index = before.loading_task->LoadBlueprintResources_0;
            let blueprint = before.current_blueprint->0@;
            let parts = before.blueprint_markdown_parts@.push(section);
            &&& self.blueprint_markdown_parts@ == parts
            &&& if index + 1 < blueprint.resources.len() {
                &&& action == CursorAction::Fetch((index + 1) as usize)
                &&& *self == (App {
                    loading_task: LoadingTask::LoadBlueprintResources((index + 1) as usize),
                    blueprint_resource_index: (index + 1) as usize,
                    blueprint_markdown_parts: self.blueprint_markdown_parts,
                    ..*before
                })
            } else {
                &&& action == CursorAction::Done
                &&& self.preview_content@ == document_text(
                    before.i18n.lang,
                    blueprint.name,
                    blueprint.resources,
                    body_views(parts),
                )
                &&& self.preview_filename@ == blueprint.name + ".md"@
                &&& self.message@ == skipped_message(
                    before.i18n.lang,
                    blueprint.resources,
                    skipped(body_views(parts), blueprint.resources.len() as int),
                )
                &&& *self == (App {
                    preview_scroll: 0,
                    preview_content: self.preview_content,
                    preview_filename: self.preview_filename,
                    message: self.message,
                    blueprint_markdown_parts: self.blueprint_markdown_parts,
                    ..before.entered(Screen::BlueprintPreview)
                })
            }
        }
    }

    /// The index of the awaited resource of the open blueprint, if one is
    /// awaited, and whether it is the blueprint's last.
    fn awaited_resource(&self) -> (r: Option<(usize, bool)>)
        ensures
            r is Some == self.awaits_resource(),
            r matches Some((index, last)) ==> {
                &&& self.loading_task == LoadingTask::LoadBlueprintResources(index)
                &&& last == (index + 1 == self.current_blueprint->0@.resources.len())
                &&& index < usize::MAX
            },
    {
        if !self.loading {
            return None;
        }
        let index: usize = match &self.loading_task {
            LoadingTask::LoadBlueprintResources(index) => *index,
            _ => {
                return None;
            },
        };
        match &self.current_blueprint {
            Some(blueprint) => {
                let count: usize = blueprint.resources.len();
                assert(blueprint@.resources.len() == count);
                if index < count && self.blueprint_markdown_parts.len() == index {
                    Some((index, index + 1 == count))
                } else {
                    None
                }
            },
            None => None,
        }
    }

    /// Takes the detail text of the awaited resource of the open
    /// blueprint, or `None` where its fetch failed: a failed resource is
    /// left out and the load goes on. After the last resource the document
    /// is assembled from the texts that came, in the blueprint's order, and
    /// the preview is entered, as through `enter`; the operator is told
    /// which resources were left out. Before that the next resource is asked for. Where no resource
    /// is awaited nothing changes.
    pub fn advance_blueprint(&mut self, section: Option<String>) -> (action: CursorAction)
        ensures
            old(self).well_formed() ==> final(self).well_formed(),
            final(self).after_resource(&*old(self), section, action),
    {
        let (index, last) = match self.awaited_resource() {
            Some(found) => found,
            None => {
                return CursorAction::Rejected;
            },
        };
        self.blueprint_markdown_parts.push(section);
        if !last {
            self.loading_task = LoadingTask::LoadBlueprintResources(index + 1);
            self.blueprint_resource_index = index + 1;
            return CursorAction::Fetch(index + 1);
        }
        let (text, filename, notice) = match &self.current_blueprint {
            Some(blueprint) => {
                let selection = Selection::Blueprint {
                    blueprint,
                    bodies: &self.blueprint_markdown_parts,
                };
                let document = render(&selection, self.i18n.lang);
                proof {
                    lemma_skipped_bounds(
                        body_views(self.blueprint_markdown_parts@),
                        blueprint@.resources.len() as int,
                    );
                    assert forall|k: int| 0 <= k < document.skipped@.len() implies (
                    #[trigger] document.skipped@[k]) < blueprint.resources@.len() by {
                        assert(index_views(document.skipped@)[k] == document.skipped@[k]);
                    }
                }
                let notice = skipped_notice(&self.i18n, blueprint, &document.skipped);
                let mut filename = blueprint.name.clone();
                filename.append(".md");
                (document.text, filename, notice)
            },
            None => (String::new(), String::new(), String::new()),
        };
        self.preview_content = text;
        self.preview_filename = filename;
        self.message = notice;
        self.preview_scroll = 0;
        self.enter(Screen::BlueprintPreview);
        CursorAction::Done
    }

    /// Entering a screen and then another leaves no task in flight and the
    /// checklist cleared, whatever the state was and whichever the screens.
    pub proof fn lemma_enter_twice_settles(self, first: Screen, second: Screen)
        ensures
            !self.entered(first).entered(second).loading,
            self.entered(first).entered(second).loading_task == LoadingTask::Idle,
            self.entered(first).entered(second).loading_progress.at_rest(),
            self.entered(first).entered(second).screen == second,
    {
    }

    /// A login that succeeds and the choice of a region that follows it are
    /// two changes of screen: after them no task is in flight and the
    /// checklist is cleared, whatever was in flight before.
    pub proof fn lemma_login_then_region_settles(self, info: String)
        ensures
            ({
                let after_login = App {
                    login_info: Some(info),
                    ..self.entered(Screen::BlueprintSelect)
                };
                let after = after_login.entered(Screen::ServiceSelect);
                &&& !after_login.loading
                &&& after_login.loading_task == LoadingTask::Idle
                &&& after_login.loading_progress.at_rest()
                &&& after.screen == Screen::ServiceSelect
                &&& !after.loading
                &&& after.loading_task == LoadingTask::Idle
                &&& after.loading_progress.at_rest()
            }),
    {
    }

    /// A result that arrives after a screen was entered finds no task and
    /// changes nothing.
    pub proof fn lemma_stale_result_is_dropped(
        self,
        screen: Screen,
        after: App,
        result: TaskResult,
        completion: Completion,
    )
        requires
            after.after_result(&self.entered(screen), result, completion),
        ensures
            completion == Completion::Ignored,
            after == self.entered(screen),
    {
    }

    /// While a task is in flight, a second one is refused and the recorded
    /// task stays.
    pub proof fn lemma_second_task_is_refused(
        before: App,
        after: App,
        task: LoadingTask,
        begun: bool,
    )
        requires
            before.loading,
            after.after_begin(&before, task, begun),
        ensures
            !begun,
            after.loading_task == before.loading_task,
            after == before,
    {
    }

    /// A task that began is in flight and recorded.
    pub proof fn lemma_begun_task_is_recorded(
        before: App,
        after: App,
        task: LoadingTask,
        begun: bool,
    )
        requires
            after.after_begin(&before, task, begun),
            begun,
        ensures
            after.loading,
            after.loading_task == task,
    {
    }

    /// An awaited step raises its own flag and no other, and only the last
    /// step ends the loading.
    pub proof fn lemma_step_raises_one_flag(
        before: App,
        after: App,
        step: int,
        part: NetworkPart,
        action: StepAction,
    )
        requires
            before.awaits_step(step),
            part.step() == step,
            after.after_step(&before, step, part, action),
        ensures
            after.loading_progress.flags() == before.loading_progress.flags().update(step, true),
            after.loading == (step != 6),
            (action == StepAction::Done) == (step == 6),
            step == 6 ==> after.network_detail is Some && after.one_detail_at_most(),
            step != 6 ==> after.network_detail == before.network_detail,
    {
        before.loading_progress.lemma_marked_flags(step);
    }

    /// A failure in the middle of a network detail publishes no detail and
    /// keeps the flags of the steps that were done.
    pub proof fn lemma_failed_step_publishes_nothing(
        before: App,
        after: App,
        completion: Completion,
    )
        requires
            before.loading,
            before.loading_task is LoadVpcDetail,
            after.after_result(&before, TaskResult::Failed, completion),
        ensures
            completion == Completion::Failed,
            !after.loading,
            after.network_detail == before.network_detail,
            after.network_draft is None,
            after.loading_progress == before.loading_progress,
            after.message@ == crate::i18n::network_unavailable_text(
                before.i18n.lang,
                before.loading_task->LoadVpcDetail_0@,
            ),
    {
    }

    /// Whatever details are populated, the current kind is the one of them
    /// that comes first in the order of priority; it is unique.
    pub proof fn lemma_current_is_first(self, current: ResourceType, other: ResourceType)
        requires
            self.is_current(current),
            self.populated(other),
        ensures
            current.rank() <= other.rank(),
            self.is_current(other) ==> other == current,
    {
    }

    /// Where at most one detail is populated, any two populated kinds are
    /// the same kind.
    pub proof fn lemma_one_detail(self, a: ResourceType, b: ResourceType)
        requires
            self.one_detail_at_most(),
            self.populated(a),
            self.populated(b),
        ensures
            a == b,
    {
    }

    /// A detail that a result brings is the only one populated afterwards.
    pub proof fn lemma_result_keeps_one_detail(
        before: App,
        after: App,
        result: TaskResult,
        completion: Completion,
    )
        requires
            before.one_detail_at_most(),
            after.after_result(&before, result, completion),
        ensures
            after.one_detail_at_most(),
    {
    }
}

impl App {
    /// What holds of the state between any two calls of the functions
    /// above: loading goes with a recorded task; at most one detail is
    /// populated; a draft of a network detail exists exactly while such a
    /// detail is in flight, and then the checklist shows the steps before
    /// the awaited one as done and no others.
    pub open spec fn well_formed(&self) -> bool {
        &&& self.loading == (self.loading_task !is Idle)
        &&& self.one_detail_at_most()
        &&& self.network_draft is Some == (self.loading_task is LoadVpcDetail)
        &&& self.loading_task matches LoadingTask::LoadVpcDetail(_, step) ==> step < 7
            && self.loading_progress.done_through(step as int)
    }

    /// In a well-formed state with a network detail in flight, the
    /// checklist as a sequence shows the steps before the awaited one.
    pub proof fn lemma_progress_shows_steps(self, step: int)
        requires
            self.well_formed(),
            self.awaits_step(step),
        ensures
            self.loading_progress.flags() == Seq::new(7, |i: int| i < step),
    {
        self.loading_progress.lemma_done_through_flags(step);
    }

    /// In a well-formed state, a failure while step `step` of a network
    /// detail is awaited leaves the flags of the steps before it up and all
    /// others down, and publishes nothing.
    pub proof fn lemma_failure_shows_progress(
        before: App,
        after: App,
        step: int,
        completion: Completion,
    )
        requires
            before.well_formed(),
            before.awaits_step(step),
            after.after_result(&before, TaskResult::Failed, completion),
        ensures
            after.loading_progress.flags() == Seq::new(7, |i: int| i < step),
            after.network_detail == before.network_detail,
            after.network_draft is None,
            !after.loading,
    {
        before.loading_progress.lemma_done_through_flags(step);
    }
}

/// The screen on which the resources of a kind are listed.
pub open spec fn select_screen(kind: ResourceType) -> Screen {
    match kind {
        ResourceType::Ec2 => Screen::Ec2Select,
        ResourceType::Network => Screen::VpcSelect,
        ResourceType::SecurityGroup => Screen::SecurityGroupSelect,
        ResourceType::LoadBalancer => Screen::LoadBalancerSelect,
        ResourceType::Ecr => Screen::EcrSelect,
        ResourceType::Asg => Screen::AsgSelect,
    }
}

/// The kind of the service at `index` of the services on offer: the one
/// whose place in the order of priority is `index`.
pub fn service_kind(index: usize) -> (r: ResourceType)
    requires
        index < SERVICE_COUNT,
    ensures
        r.rank() == index,
        r.label() == service_name(index as int),
{
    if index == 0 {
        ResourceType::Ec2
    } else if index == 1 {
        ResourceType::Network
    } else if index == 2 {
        ResourceType::SecurityGroup
    } else if index == 3 {
        ResourceType::LoadBalancer
    } else if index == 4 {
        ResourceType::Ecr
    } else {
        ResourceType::Asg
    }
}

/// The screen on which the resources of `kind` are listed.
pub fn screen_for(kind: ResourceType) -> (r: Screen)
    ensures
        r == select_screen(kind),
{
    match kind {
        ResourceType::Ec2 => Screen::Ec2Select,
        ResourceType::Network => Screen::VpcSelect,
        ResourceType::SecurityGroup => Screen::SecurityGroupSelect,
        ResourceType::LoadBalancer => Screen::LoadBalancerSelect,
        ResourceType::Ecr => Screen::EcrSelect,
        ResourceType::Asg => Screen::AsgSelect,
    }
}

/// The task that loads the listing of `kind`, or loads it anew where
/// `refresh` is set.
pub fn list_task(kind: ResourceType, refresh: bool) -> (r: LoadingTask)
    ensures
        r.shape() == TaskShape::List(kind),
        r == match (kind, refresh) {
            (ResourceType::Ec2, false) => LoadingTask::LoadEc2,
            (ResourceType::Ec2, true) => LoadingTask::RefreshEc2,
            (ResourceType::Network, false) => LoadingTask::LoadVpc,
            (ResourceType::Network, true) => LoadingTask::RefreshVpc,
            (ResourceType::SecurityGroup, false) => LoadingTask::LoadSecurityGroup,
            (ResourceType::SecurityGroup, true) => LoadingTask::RefreshSecurityGroup,
            (ResourceType::LoadBalancer, false) => LoadingTask::LoadLoadBalancer,
            (ResourceType::LoadBalancer, true) => LoadingTask::RefreshLoadBalancer,
            (ResourceType::Ecr, false) => LoadingTask::LoadEcr,
            (ResourceType::Ecr, true) => LoadingTask::RefreshEcr,
            (ResourceType::Asg, false) => LoadingTask::LoadAsg,
            (ResourceType::Asg, true) => LoadingTask::RefreshAsg,
        },
{
    match kind {
        ResourceType::Ec2 => if refresh {
            LoadingTask::RefreshEc2
        } else {
            LoadingTask::LoadEc2
        },
        ResourceType::Network => if refresh {
            LoadingTask::RefreshVpc
        } else {
            LoadingTask::LoadVpc
        },
        ResourceType::SecurityGroup => if refresh {
            LoadingTask::RefreshSecurityGroup
        } else {
            LoadingTask::LoadSecurityGroup
        },
        ResourceType::LoadBalancer => if refresh {
            LoadingTask::RefreshLoadBalancer
        } else {
            LoadingTask::LoadLoadBalancer
        },
        ResourceType::Ecr => if refresh {
            LoadingTask::RefreshEcr
        } else {
            LoadingTask::LoadEcr
        },
        ResourceType::Asg => if refresh {
            LoadingTask::RefreshAsg
        } else {
            LoadingTask::LoadAsg
        },
    }
}

/// The task that loads the detail of the resource `id` of `kind`; for a
/// network, the first step of it.
pub fn detail_task(kind: ResourceType, id: String) -> (r: LoadingTask)
    ensures
        r == match kind {
            ResourceType::Ec2 => LoadingTask::LoadEc2Detail(id),
            ResourceType::Network => LoadingTask::LoadVpcDetail(id, 0),
            ResourceType::SecurityGroup => LoadingTask::LoadSecurityGroupDetail(id),
            ResourceType::LoadBalancer => LoadingTask::LoadLoadBalancerDetail(id),
            ResourceType::Ecr => LoadingTask::LoadEcrDetail(id),
            ResourceType::Asg => LoadingTask::LoadAsgDetail(id),
        },
{
    match kind {
        ResourceType::Ec2 => LoadingTask::LoadEc2Detail(id),
        ResourceType::Network => LoadingTask::LoadVpcDetail(id, 0),
        ResourceType::SecurityGroup => LoadingTask::LoadSecurityGroupDetail(id),
        ResourceType::LoadBalancer => LoadingTask::LoadLoadBalancerDetail(id),
        ResourceType::Ecr => LoadingTask::LoadEcrDetail(id),
        ResourceType::Asg => LoadingTask::LoadAsgDetail(id),
    }
}

impl App {
    /// The listing of the resources of `kind`.
    pub open spec fn rows_of(&self, kind: ResourceType) -> Vec<AwsResource> {
        match kind {
            ResourceType::Ec2 => self.instances,
            ResourceType::Network => self.vpcs,
            ResourceType::SecurityGroup => self.security_groups,
            ResourceType::LoadBalancer => self.load_balancers,
            ResourceType::Ecr => self.ecr_repositories,
            ResourceType::Asg => self.auto_scaling_groups,
        }
    }

    /// The listing of the resources of `kind`, as it was last fetched.
    pub fn listing(&self, kind: ResourceType) -> (r: &Vec<AwsResource>)
        ensures
            *r == self.rows_of(kind),
    {
        match kind {
            ResourceType::Ec2 => &self.instances,
            ResourceType::Network => &self.vpcs,
            ResourceType::SecurityGroup => &self.security_groups,
            ResourceType::LoadBalancer => &self.load_balancers,
            ResourceType::Ecr => &self.ecr_repositories,
            ResourceType::Asg => &self.auto_scaling_groups,
        }
    }

    /// A listing that was applied is the one that `listing` hands out for
    /// the kind of the task.
    pub proof fn lemma_rows_are_listed(
        before: App,
        after: App,
        kind: ResourceType,
        rows: Vec<AwsResource>,
        completion: Completion,
    )
        requires
            before.loading,
            before.loading_task.shape() == TaskShape::List(kind),
            after.after_result(&before, TaskResult::Resources(rows), completion),
        ensures
            completion == Completion::Applied,
            after.rows_of(kind) == rows,
            forall|other: ResourceType|
                other != kind ==> #[trigger] after.rows_of(other) == before.rows_of(other),
    {
    }
}

} // verus!
