//! File classification model: system layers, fine-grained categories and importance levels.
use vstd::prelude::*;

verus! {

/// The layer of a Windows system a file belongs to, from kernel to user space.
///
/// The lower the layer, the closer to the system core and the riskier a deletion.
#[derive(Debug, Clone, Copy, PartialEq, Eq, Hash, Structural)]
pub enum SystemLayer {
    /// Kernel and core components.
    Kernel,
    /// System services and drivers.
    SystemService,
    /// Runtime caches and temporary data.
    SystemRuntime,
    /// System configuration and component store.
    SystemConfig,
    /// Installed applications and their data.
    Application,
    /// Documents, media and downloads created by the user.
    UserSpace,
}

impl SystemLayer {
    /// Rank of the layer; smaller means closer to the core.
    pub open spec fn spec_rank(self) -> u8 {
        match self {
            SystemLayer::Kernel => 0,
            SystemLayer::SystemService => 1,
            SystemLayer::SystemConfig => 2,
            SystemLayer::SystemRuntime => 3,
            SystemLayer::Application => 4,
            SystemLayer::UserSpace => 5,
        }
    }

    pub open spec fn spec_label(self) -> Seq<char> {
        match self {
            SystemLayer::Kernel => "系统内核"@,
            SystemLayer::SystemService => "系统服务"@,
            SystemLayer::SystemConfig => "系统配置"@,
            SystemLayer::SystemRuntime => "系统运行时"@,
            SystemLayer::Application => "应用层"@,
            SystemLayer::UserSpace => "用户空间"@,
        }
    }

    /// Rank of the layer; smaller means closer to the core.
    pub fn rank(self) -> (r: u8)
        ensures
            r == self.spec_rank(),
    {
        match self {
            SystemLayer::Kernel => 0,
            SystemLayer::SystemService => 1,
            SystemLayer::SystemConfig => 2,
            SystemLayer::SystemRuntime => 3,
            SystemLayer::Application => 4,
            SystemLayer::UserSpace => 5,
        }
    }

    /// Chinese label.
    pub fn label(self) -> (r: &'static str)
        ensures
            r@ == self.spec_label(),
    {
        match self {
            SystemLayer::Kernel => "系统内核",
            SystemLayer::SystemService => "系统服务",
            SystemLayer::SystemConfig => "系统配置",
            SystemLayer::SystemRuntime => "系统运行时",
            SystemLayer::Application => "应用层",
            SystemLayer::UserSpace => "用户空间",
        }
    }
}

/// Distinct layers have distinct ranks, so the rank orders the layers totally.
pub proof fn lemma_layer_rank_injective(a: SystemLayer, b: SystemLayer)
    ensures
        a.spec_rank() == b.spec_rank() <==> a == b,
{
}

/// Fine-grained file categories covering Windows 10/11 files.
#[derive(Debug, Clone, Copy, PartialEq, Eq, Hash, Structural)]
pub enum FileCategory {
    SystemBinary,
    SystemDriver,
    ComponentStore,
    InstallerCache,
    BootLoader,
    BootConfiguration,
    UefiFirmware,
    RegistryHive,
    SystemModule,
    SystemManifest,
    DllCache,
    FontCache,
    BootFile,
    SystemResource,
    SystemMetadata,
    TrustedInstallerFile,
    WinSxSBinary,
    WinSxSManifest,
    CoreSystemFile,
    KernelModule,
    ServiceExecutable,
    ServiceData,
    DriverStore,
    PrintSpooler,
    AntivirusDefinition,
    WindowsService,
    SystemServiceConfig,
    FirewallRule,
    PolicyFile,
    SystemServiceDll,
    ServiceLog,
    SystemServiceRegistry,
    EventLogData,
    ServicePipe,
    SystemServiceCache,
    SystemTemp,
    PrefetchData,
    SuperfetchData,
    WindowsUpdateCache,
    DeliveryOptimization,
    ErrorReport,
    SystemLog,
    EventTrace,
    MemoryDump,
    PageFile,
    HibernationFile,
    SystemRestorePoint,
    ThumbnailCache,
    IconCache,
    SearchIndex,
    WindowsLog,
    CBSLog,
    SetupLog,
    CrashDump,
    WindowsErrorLog,
    DiagnosticsLog,
    SystemPerformanceLog,
    WindowsTelemetry,
    WindowsDiagnostic,
    SystemRuntimeCache,
    SystemRuntimeData,
    WinSxSManifestFile,
    MsiManifest,
    SymlinkTarget,
    JunctionTarget,
    GroupPolicy,
    SystemPolicy,
    SecurityPolicy,
    RegistryBackup,
    SystemConfigData,
    WindowsActivation,
    LicensingData,
    ComponentConfig,
    FeatureStore,
    SystemSetting,
    SystemConfigCache,
    ApplicationBinary,
    AppModule,
    AppPlugin,
    AppExtension,
    AppResource,
    AppData,
    AppLibrary,
    AppFramework,
    AppLauncher,
    AppInstaller,
    AppConfig,
    AppDatabase,
    AppLog,
    AppCache,
    AppTemp,
    BrowserCache,
    BrowserCookie,
    BrowserHistory,
    BrowserExtensionData,
    PackageManagerCache,
    BuildArtifact,
    DevToolCache,
    MediaCache,
    IDEWorkspace,
    IDEIndex,
    IDECache,
    ContainerLayer,
    VirtualMachineDisk,
    DatabaseData,
    DatabaseLog,
    DatabaseTemp,
    GameCache,
    GameSave,
    ChatLog,
    ChatMedia,
    CloudSyncLocal,
    OfficeCache,
    OfficeTemp,
    StreamingCache,
    DownloadManagerData,
    UserDocument,
    UserMedia,
    UserDownload,
    UserTemp,
    UserProfileData,
    CloudSyncData,
    BackupData,
    UserTemplate,
    UserCertificate,
    UserCredential,
    UserBookmark,
    UserHistory,
    UserPreference,
    UserTheme,
    UserFont,
    UserMacro,
    UserShortcut,
    UserEmail,
    UserContact,
    UserCalendar,
    Unknown,
    GenericTemp,
    GenericLog,
    GenericCache,
    GenericBackup,
    GenericInstaller,
    GenericDownload,
    GenericFragment,
    GenericArtifact,
    Other,
}

impl FileCategory {
    /// The system layer a category belongs to.
    pub open spec fn spec_layer(self) -> SystemLayer {
        match self {
            FileCategory::SystemBinary | FileCategory::SystemDriver | FileCategory::ComponentStore | FileCategory::InstallerCache | FileCategory::BootLoader | FileCategory::BootConfiguration | FileCategory::UefiFirmware | FileCategory::RegistryHive | FileCategory::SystemModule | FileCategory::SystemManifest | FileCategory::DllCache | FileCategory::FontCache | FileCategory::BootFile | FileCategory::SystemResource | FileCategory::SystemMetadata | FileCategory::TrustedInstallerFile | FileCategory::WinSxSBinary | FileCategory::WinSxSManifest | FileCategory::CoreSystemFile | FileCategory::KernelModule => SystemLayer::Kernel,
            FileCategory::ServiceExecutable | FileCategory::ServiceData | FileCategory::DriverStore | FileCategory::PrintSpooler | FileCategory::AntivirusDefinition | FileCategory::WindowsService | FileCategory::SystemServiceConfig | FileCategory::FirewallRule | FileCategory::PolicyFile | FileCategory::SystemServiceDll | FileCategory::ServiceLog | FileCategory::SystemServiceRegistry | FileCategory::EventLogData | FileCategory::ServicePipe | FileCategory::SystemServiceCache => SystemLayer::SystemService,
            FileCategory::SystemTemp | FileCategory::PrefetchData | FileCategory::SuperfetchData | FileCategory::WindowsUpdateCache | FileCategory::DeliveryOptimization | FileCategory::ErrorReport | FileCategory::SystemLog | FileCategory::EventTrace | FileCategory::MemoryDump | FileCategory::PageFile | FileCategory::HibernationFile | FileCategory::SystemRestorePoint | FileCategory::ThumbnailCache | FileCategory::IconCache | FileCategory::SearchIndex | FileCategory::WindowsLog | FileCategory::CBSLog | FileCategory::SetupLog | FileCategory::CrashDump | FileCategory::WindowsErrorLog | FileCategory::DiagnosticsLog | FileCategory::SystemPerformanceLog | FileCategory::WindowsTelemetry | FileCategory::WindowsDiagnostic | FileCategory::SystemRuntimeCache | FileCategory::SystemRuntimeData => SystemLayer::SystemRuntime,
            FileCategory::WinSxSManifestFile | FileCategory::MsiManifest | FileCategory::SymlinkTarget | FileCategory::JunctionTarget | FileCategory::GroupPolicy | FileCategory::SystemPolicy | FileCategory::SecurityPolicy | FileCategory::RegistryBackup | FileCategory::SystemConfigData | FileCategory::WindowsActivation | FileCategory::LicensingData | FileCategory::ComponentConfig | FileCategory::FeatureStore | FileCategory::SystemSetting | FileCategory::SystemConfigCache => SystemLayer::SystemConfig,
            FileCategory::ApplicationBinary | FileCategory::AppModule | FileCategory::AppPlugin | FileCategory::AppExtension | FileCategory::AppResource | FileCategory::AppData | FileCategory::AppLibrary | FileCategory::AppFramework | FileCategory::AppLauncher | FileCategory::AppInstaller | FileCategory::AppConfig | FileCategory::AppDatabase | FileCategory::AppLog | FileCategory::AppCache | FileCategory::AppTemp | FileCategory::BrowserCache | FileCategory::BrowserCookie | FileCategory::BrowserHistory | FileCategory::BrowserExtensionData | FileCategory::PackageManagerCache | FileCategory::BuildArtifact | FileCategory::DevToolCache | FileCategory::MediaCache | FileCategory::IDEWorkspace | FileCategory::IDEIndex | FileCategory::IDECache | FileCategory::ContainerLayer | FileCategory::VirtualMachineDisk | FileCategory::DatabaseData | FileCategory::DatabaseLog | FileCategory::DatabaseTemp | FileCategory::GameCache | FileCategory::GameSave | FileCategory::ChatLog | FileCategory::ChatMedia | FileCategory::CloudSyncLocal | FileCategory::OfficeCache | FileCategory::OfficeTemp | FileCategory::StreamingCache | FileCategory::DownloadManagerData => SystemLayer::Application,
            FileCategory::UserDocument | FileCategory::UserMedia | FileCategory::UserDownload | FileCategory::UserTemp | FileCategory::UserProfileData | FileCategory::CloudSyncData | FileCategory::BackupData | FileCategory::UserTemplate | FileCategory::UserCertificate | FileCategory::UserCredential | FileCategory::UserBookmark | FileCategory::UserHistory | FileCategory::UserPreference | FileCategory::UserTheme | FileCategory::UserFont | FileCategory::UserMacro | FileCategory::UserShortcut | FileCategory::UserEmail | FileCategory::UserContact | FileCategory::UserCalendar | FileCategory::Unknown | FileCategory::GenericTemp | FileCategory::GenericLog | FileCategory::GenericCache | FileCategory::GenericBackup | FileCategory::GenericInstaller | FileCategory::GenericDownload | FileCategory::GenericFragment | FileCategory::GenericArtifact | FileCategory::Other => SystemLayer::UserSpace,
        }
    }

    /// Chinese label of a category.
    pub open spec fn spec_label(self) -> Seq<char> {
        match self {
            FileCategory::SystemBinary => "系统二进制"@,
            FileCategory::SystemDriver => "驱动程序"@,
            FileCategory::ComponentStore => "组件存储"@,
            FileCategory::InstallerCache => "安装包缓存"@,
            FileCategory::BootLoader => "启动引导"@,
            FileCategory::BootConfiguration => "启动配置"@,
            FileCategory::UefiFirmware => "UEFI 固件"@,
            FileCategory::RegistryHive => "注册表配置单元"@,
            FileCategory::SystemModule => "系统模块"@,
            FileCategory::SystemManifest => "系统清单"@,
            FileCategory::DllCache => "DLL 缓存"@,
            FileCategory::FontCache => "字体缓存"@,
            FileCategory::BootFile => "启动文件"@,
            FileCategory::SystemResource => "系统资源"@,
            FileCategory::SystemMetadata => "系统元数据"@,
            FileCategory::TrustedInstallerFile => "TrustedInstaller 文件"@,
            FileCategory::WinSxSBinary => "WinSxS 二进制"@,
            FileCategory::WinSxSManifest => "WinSxS 清单"@,
            FileCategory::CoreSystemFile => "核心系统文件"@,
            FileCategory::KernelModule => "内核模块"@,
            FileCategory::ServiceExecutable => "服务可执行文件"@,
            FileCategory::ServiceData => "服务数据"@,
            FileCategory::DriverStore => "驱动商店"@,
            FileCategory::PrintSpooler => "打印假脱机"@,
            FileCategory::AntivirusDefinition => "杀毒定义"@,
            FileCategory::WindowsService => "Windows 服务"@,
            FileCategory::SystemServiceConfig => "服务配置"@,
            FileCategory::FirewallRule => "防火墙规则"@,
            FileCategory::PolicyFile => "策略文件"@,
            FileCategory::SystemServiceDll => "服务 DLL"@,
            FileCategory::ServiceLog => "服务日志"@,
            FileCategory::SystemServiceRegistry => "服务注册表"@,
            FileCategory::EventLogData => "事件日志数据"@,
            FileCategory::ServicePipe => "服务管道"@,
            FileCategory::SystemServiceCache => "服务缓存"@,
            FileCategory::SystemTemp => "系统临时文件"@,
            FileCategory::PrefetchData => "Prefetch 数据"@,
            FileCategory::SuperfetchData => "Superfetch 数据"@,
            FileCategory::WindowsUpdateCache => "Windows Update 缓存"@,
            FileCategory::DeliveryOptimization => "传递优化缓存"@,
            FileCategory::ErrorReport => "错误报告"@,
            FileCategory::SystemLog => "系统日志"@,
            FileCategory::EventTrace => "事件追踪"@,
            FileCategory::MemoryDump => "内存转储"@,
            FileCategory::PageFile => "页面文件"@,
            FileCategory::HibernationFile => "休眠文件"@,
            FileCategory::SystemRestorePoint => "系统还原点"@,
            FileCategory::ThumbnailCache => "缩略图缓存"@,
            FileCategory::IconCache => "图标缓存"@,
            FileCategory::SearchIndex => "搜索索引"@,
            FileCategory::WindowsLog => "Windows 日志"@,
            FileCategory::CBSLog => "CBS 日志"@,
            FileCategory::SetupLog => "安装日志"@,
            FileCategory::CrashDump => "崩溃转储"@,
            FileCategory::WindowsErrorLog => "Windows 错误日志"@,
            FileCategory::DiagnosticsLog => "诊断日志"@,
            FileCategory::SystemPerformanceLog => "性能日志"@,
            FileCategory::WindowsTelemetry => "遥测数据"@,
            FileCategory::WindowsDiagnostic => "诊断数据"@,
            FileCategory::SystemRuntimeCache => "运行时缓存"@,
            FileCategory::SystemRuntimeData => "运行时数据"@,
            FileCategory::WinSxSManifestFile => "WinSxS 清单文件"@,
            FileCategory::MsiManifest => "MSI 清单"@,
            FileCategory::SymlinkTarget => "符号链接目标"@,
            FileCategory::JunctionTarget => "联接点目标"@,
            FileCategory::GroupPolicy => "组策略"@,
            FileCategory::SystemPolicy => "系统策略"@,
            FileCategory::SecurityPolicy => "安全策略"@,
            FileCategory::RegistryBackup => "注册表备份"@,
            FileCategory::SystemConfigData => "系统配置数据"@,
            FileCategory::WindowsActivation => "Windows 激活"@,
            FileCategory::LicensingData => "授权数据"@,
            FileCategory::ComponentConfig => "组件配置"@,
            FileCategory::FeatureStore => "功能存储"@,
            FileCategory::SystemSetting => "系统设置"@,
            FileCategory::SystemConfigCache => "配置缓存"@,
            FileCategory::ApplicationBinary => "应用可执行文件"@,
            FileCategory::AppModule => "应用模块"@,
            FileCategory::AppPlugin => "应用插件"@,
            FileCategory::AppExtension => "应用扩展"@,
            FileCategory::AppResource => "应用资源"@,
            FileCategory::AppData => "应用数据"@,
            FileCategory::AppLibrary => "应用库"@,
            FileCategory::AppFramework => "应用框架"@,
            FileCategory::AppLauncher => "应用启动器"@,
            FileCategory::AppInstaller => "应用安装包"@,
            FileCategory::AppConfig => "应用配置"@,
            FileCategory::AppDatabase => "应用数据库"@,
            FileCategory::AppLog => "应用日志"@,
            FileCategory::AppCache => "应用缓存"@,
            FileCategory::AppTemp => "应用临时文件"@,
            FileCategory::BrowserCache => "浏览器缓存"@,
            FileCategory::BrowserCookie => "浏览器 Cookie"@,
            FileCategory::BrowserHistory => "浏览器历史"@,
            FileCategory::BrowserExtensionData => "浏览器扩展数据"@,
            FileCategory::PackageManagerCache => "包管理器缓存"@,
            FileCategory::BuildArtifact => "构建产物"@,
            FileCategory::DevToolCache => "开发工具缓存"@,
            FileCategory::MediaCache => "媒体缓存"@,
            FileCategory::IDEWorkspace => "IDE 工作区"@,
            FileCategory::IDEIndex => "IDE 索引"@,
            FileCategory::IDECache => "IDE 缓存"@,
            FileCategory::ContainerLayer => "容器镜像层"@,
            FileCategory::VirtualMachineDisk => "虚拟机磁盘"@,
            FileCategory::DatabaseData => "数据库数据"@,
            FileCategory::DatabaseLog => "数据库日志"@,
            FileCategory::DatabaseTemp => "数据库临时文件"@,
            FileCategory::GameCache => "游戏缓存"@,
            FileCategory::GameSave => "游戏存档"@,
            FileCategory::ChatLog => "聊天日志"@,
            FileCategory::ChatMedia => "聊天媒体"@,
            FileCategory::CloudSyncLocal => "云同步本地副本"@,
            FileCategory::OfficeCache => "Office 缓存"@,
            FileCategory::OfficeTemp => "Office 临时文件"@,
            FileCategory::StreamingCache => "流媒体缓存"@,
            FileCategory::DownloadManagerData => "下载管理器数据"@,
            FileCategory::UserDocument => "用户文档"@,
            FileCategory::UserMedia => "用户媒体"@,
            FileCategory::UserDownload => "用户下载"@,
            FileCategory::UserTemp => "用户临时文件"@,
            FileCategory::UserProfileData => "用户配置"@,
            FileCategory::CloudSyncData => "云同步数据"@,
            FileCategory::BackupData => "备份数据"@,
            FileCategory::UserTemplate => "用户模板"@,
            FileCategory::UserCertificate => "用户证书"@,
            FileCategory::UserCredential => "用户凭据"@,
            FileCategory::UserBookmark => "用户书签"@,
            FileCategory::UserHistory => "用户历史"@,
            FileCategory::UserPreference => "用户偏好"@,
            FileCategory::UserTheme => "用户主题"@,
            FileCategory::UserFont => "用户字体"@,
            FileCategory::UserMacro => "用户宏"@,
            FileCategory::UserShortcut => "用户快捷方式"@,
            FileCategory::UserEmail => "用户邮件"@,
            FileCategory::UserContact => "用户联系人"@,
            FileCategory::UserCalendar => "用户日历"@,
            FileCategory::Unknown => "未知"@,
            FileCategory::GenericTemp => "通用临时文件"@,
            FileCategory::GenericLog => "通用日志"@,
            FileCategory::GenericCache => "通用缓存"@,
            FileCategory::GenericBackup => "通用备份"@,
            FileCategory::GenericInstaller => "通用安装包"@,
            FileCategory::GenericDownload => "通用下载"@,
            FileCategory::GenericFragment => "文件碎片"@,
            FileCategory::GenericArtifact => "构建产物"@,
            FileCategory::Other => "其他"@,
        }
    }

    /// Maps the category to the system layer it belongs to.
    pub fn layer(self) -> (r: SystemLayer)
        ensures
            r == self.spec_layer(),
    {
        match self {
            FileCategory::SystemBinary | FileCategory::SystemDriver | FileCategory::ComponentStore | FileCategory::InstallerCache | FileCategory::BootLoader | FileCategory::BootConfiguration | FileCategory::UefiFirmware | FileCategory::RegistryHive | FileCategory::SystemModule | FileCategory::SystemManifest | FileCategory::DllCache | FileCategory::FontCache | FileCategory::BootFile | FileCategory::SystemResource | FileCategory::SystemMetadata | FileCategory::TrustedInstallerFile | FileCategory::WinSxSBinary | FileCategory::WinSxSManifest | FileCategory::CoreSystemFile | FileCategory::KernelModule => SystemLayer::Kernel,
            FileCategory::ServiceExecutable | FileCategory::ServiceData | FileCategory::DriverStore | FileCategory::PrintSpooler | FileCategory::AntivirusDefinition | FileCategory::WindowsService | FileCategory::SystemServiceConfig | FileCategory::FirewallRule | FileCategory::PolicyFile | FileCategory::SystemServiceDll | FileCategory::ServiceLog | FileCategory::SystemServiceRegistry | FileCategory::EventLogData | FileCategory::ServicePipe | FileCategory::SystemServiceCache => SystemLayer::SystemService,
            FileCategory::SystemTemp | FileCategory::PrefetchData | FileCategory::SuperfetchData | FileCategory::WindowsUpdateCache | FileCategory::DeliveryOptimization | FileCategory::ErrorReport | FileCategory::SystemLog | FileCategory::EventTrace | FileCategory::MemoryDump | FileCategory::PageFile | FileCategory::HibernationFile | FileCategory::SystemRestorePoint | FileCategory::ThumbnailCache | FileCategory::IconCache | FileCategory::SearchIndex | FileCategory::WindowsLog | FileCategory::CBSLog | FileCategory::SetupLog | FileCategory::CrashDump | FileCategory::WindowsErrorLog | FileCategory::DiagnosticsLog | FileCategory::SystemPerformanceLog | FileCategory::WindowsTelemetry | FileCategory::WindowsDiagnostic | FileCategory::SystemRuntimeCache | FileCategory::SystemRuntimeData => SystemLayer::SystemRuntime,
            FileCategory::WinSxSManifestFile | FileCategory::MsiManifest | FileCategory::SymlinkTarget | FileCategory::JunctionTarget | FileCategory::GroupPolicy | FileCategory::SystemPolicy | FileCategory::SecurityPolicy | FileCategory::RegistryBackup | FileCategory::SystemConfigData | FileCategory::WindowsActivation | FileCategory::LicensingData | FileCategory::ComponentConfig | FileCategory::FeatureStore | FileCategory::SystemSetting | FileCategory::SystemConfigCache => SystemLayer::SystemConfig,
            FileCategory::ApplicationBinary | FileCategory::AppModule | FileCategory::AppPlugin | FileCategory::AppExtension | FileCategory::AppResource | FileCategory::AppData | FileCategory::AppLibrary | FileCategory::AppFramework | FileCategory::AppLauncher | FileCategory::AppInstaller | FileCategory::AppConfig | FileCategory::AppDatabase | FileCategory::AppLog | FileCategory::AppCache | FileCategory::AppTemp | FileCategory::BrowserCache | FileCategory::BrowserCookie | FileCategory::BrowserHistory | FileCategory::BrowserExtensionData | FileCategory::PackageManagerCache | FileCategory::BuildArtifact | FileCategory::DevToolCache | FileCategory::MediaCache | FileCategory::IDEWorkspace | FileCategory::IDEIndex | FileCategory::IDECache | FileCategory::ContainerLayer | FileCategory::VirtualMachineDisk | FileCategory::DatabaseData | FileCategory::DatabaseLog | FileCategory::DatabaseTemp | FileCategory::GameCache | FileCategory::GameSave | FileCategory::ChatLog | FileCategory::ChatMedia | FileCategory::CloudSyncLocal | FileCategory::OfficeCache | FileCategory::OfficeTemp | FileCategory::StreamingCache | FileCategory::DownloadManagerData => SystemLayer::Application,
            FileCategory::UserDocument | FileCategory::UserMedia | FileCategory::UserDownload | FileCategory::UserTemp | FileCategory::UserProfileData | FileCategory::CloudSyncData | FileCategory::BackupData | FileCategory::UserTemplate | FileCategory::UserCertificate | FileCategory::UserCredential | FileCategory::UserBookmark | FileCategory::UserHistory | FileCategory::UserPreference | FileCategory::UserTheme | FileCategory::UserFont | FileCategory::UserMacro | FileCategory::UserShortcut | FileCategory::UserEmail | FileCategory::UserContact | FileCategory::UserCalendar | FileCategory::Unknown | FileCategory::GenericTemp | FileCategory::GenericLog | FileCategory::GenericCache | FileCategory::GenericBackup | FileCategory::GenericInstaller | FileCategory::GenericDownload | FileCategory::GenericFragment | FileCategory::GenericArtifact | FileCategory::Other => SystemLayer::UserSpace,
        }
    }

    /// Chinese label.
    pub fn label(self) -> (r: &'static str)
        ensures
            r@ == self.spec_label(),
    {
        match self {
            FileCategory::SystemBinary => "系统二进制",
            FileCategory::SystemDriver => "驱动程序",
            FileCategory::ComponentStore => "组件存储",
            FileCategory::InstallerCache => "安装包缓存",
            FileCategory::BootLoader => "启动引导",
            FileCategory::BootConfiguration => "启动配置",
            FileCategory::UefiFirmware => "UEFI 固件",
            FileCategory::RegistryHive => "注册表配置单元",
            FileCategory::SystemModule => "系统模块",
            FileCategory::SystemManifest => "系统清单",
            FileCategory::DllCache => "DLL 缓存",
            FileCategory::FontCache => "字体缓存",
            FileCategory::BootFile => "启动文件",
            FileCategory::SystemResource => "系统资源",
            FileCategory::SystemMetadata => "系统元数据",
            FileCategory::TrustedInstallerFile => "TrustedInstaller 文件",
            FileCategory::WinSxSBinary => "WinSxS 二进制",
            FileCategory::WinSxSManifest => "WinSxS 清单",
            FileCategory::CoreSystemFile => "核心系统文件",
            FileCategory::KernelModule => "内核模块",
            FileCategory::ServiceExecutable => "服务可执行文件",
            FileCategory::ServiceData => "服务数据",
            FileCategory::DriverStore => "驱动商店",
            FileCategory::PrintSpooler => "打印假脱机",
            FileCategory::AntivirusDefinition => "杀毒定义",
            FileCategory::WindowsService => "Windows 服务",
            FileCategory::SystemServiceConfig => "服务配置",
            FileCategory::FirewallRule => "防火墙规则",
            FileCategory::PolicyFile => "策略文件",
            FileCategory::SystemServiceDll => "服务 DLL",
            FileCategory::ServiceLog => "服务日志",
            FileCategory::SystemServiceRegistry => "服务注册表",
            FileCategory::EventLogData => "事件日志数据",
            FileCategory::ServicePipe => "服务管道",
            FileCategory::SystemServiceCache => "服务缓存",
            FileCategory::SystemTemp => "系统临时文件",
            FileCategory::PrefetchData => "Prefetch 数据",
            FileCategory::SuperfetchData => "Superfetch 数据",
            FileCategory::WindowsUpdateCache => "Windows Update 缓存",
            FileCategory::DeliveryOptimization => "传递优化缓存",
            FileCategory::ErrorReport => "错误报告",
            FileCategory::SystemLog => "系统日志",
            FileCategory::EventTrace => "事件追踪",
            FileCategory::MemoryDump => "内存转储",
            FileCategory::PageFile => "页面文件",
            FileCategory::HibernationFile => "休眠文件",
            FileCategory::SystemRestorePoint => "系统还原点",
            FileCategory::ThumbnailCache => "缩略图缓存",
            FileCategory::IconCache => "图标缓存",
            FileCategory::SearchIndex => "搜索索引",
            FileCategory::WindowsLog => "Windows 日志",
            FileCategory::CBSLog => "CBS 日志",
            FileCategory::SetupLog => "安装日志",
            FileCategory::CrashDump => "崩溃转储",
            FileCategory::WindowsErrorLog => "Windows 错误日志",
            FileCategory::DiagnosticsLog => "诊断日志",
            FileCategory::SystemPerformanceLog => "性能日志",
            FileCategory::WindowsTelemetry => "遥测数据",
            FileCategory::WindowsDiagnostic => "诊断数据",
            FileCategory::SystemRuntimeCache => "运行时缓存",
            FileCategory::SystemRuntimeData => "运行时数据",
            FileCategory::WinSxSManifestFile => "WinSxS 清单文件",
            FileCategory::MsiManifest => "MSI 清单",
            FileCategory::SymlinkTarget => "符号链接目标",
            FileCategory::JunctionTarget => "联接点目标",
            FileCategory::GroupPolicy => "组策略",
            FileCategory::SystemPolicy => "系统策略",
            FileCategory::SecurityPolicy => "安全策略",
            FileCategory::RegistryBackup => "注册表备份",
            FileCategory::SystemConfigData => "系统配置数据",
            FileCategory::WindowsActivation => "Windows 激活",
            FileCategory::LicensingData => "授权数据",
            FileCategory::ComponentConfig => "组件配置",
            FileCategory::FeatureStore => "功能存储",
            FileCategory::SystemSetting => "系统设置",
            FileCategory::SystemConfigCache => "配置缓存",
            FileCategory::ApplicationBinary => "应用可执行文件",
            FileCategory::AppModule => "应用模块",
            FileCategory::AppPlugin => "应用插件",
            FileCategory::AppExtension => "应用扩展",
            FileCategory::AppResource => "应用资源",
            FileCategory::AppData => "应用数据",
            FileCategory::AppLibrary => "应用库",
            FileCategory::AppFramework => "应用框架",
            FileCategory::AppLauncher => "应用启动器",
            FileCategory::AppInstaller => "应用安装包",
            FileCategory::AppConfig => "应用配置",
            FileCategory::AppDatabase => "应用数据库",
            FileCategory::AppLog => "应用日志",
            FileCategory::AppCache => "应用缓存",
            FileCategory::AppTemp => "应用临时文件",
            FileCategory::BrowserCache => "浏览器缓存",
            FileCategory::BrowserCookie => "浏览器 Cookie",
            FileCategory::BrowserHistory => "浏览器历史",
            FileCategory::BrowserExtensionData => "浏览器扩展数据",
            FileCategory::PackageManagerCache => "包管理器缓存",
            FileCategory::BuildArtifact => "构建产物",
            FileCategory::DevToolCache => "开发工具缓存",
            FileCategory::MediaCache => "媒体缓存",
            FileCategory::IDEWorkspace => "IDE 工作区",
            FileCategory::IDEIndex => "IDE 索引",
            FileCategory::IDECache => "IDE 缓存",
            FileCategory::ContainerLayer => "容器镜像层",
            FileCategory::VirtualMachineDisk => "虚拟机磁盘",
            FileCategory::DatabaseData => "数据库数据",
            FileCategory::DatabaseLog => "数据库日志",
            FileCategory::DatabaseTemp => "数据库临时文件",
            FileCategory::GameCache => "游戏缓存",
            FileCategory::GameSave => "游戏存档",
            FileCategory::ChatLog => "聊天日志",
            FileCategory::ChatMedia => "聊天媒体",
            FileCategory::CloudSyncLocal => "云同步本地副本",
            FileCategory::OfficeCache => "Office 缓存",
            FileCategory::OfficeTemp => "Office 临时文件",
            FileCategory::StreamingCache => "流媒体缓存",
            FileCategory::DownloadManagerData => "下载管理器数据",
            FileCategory::UserDocument => "用户文档",
            FileCategory::UserMedia => "用户媒体",
            FileCategory::UserDownload => "用户下载",
            FileCategory::UserTemp => "用户临时文件",
            FileCategory::UserProfileData => "用户配置",
            FileCategory::CloudSyncData => "云同步数据",
            FileCategory::BackupData => "备份数据",
            FileCategory::UserTemplate => "用户模板",
            FileCategory::UserCertificate => "用户证书",
            FileCategory::UserCredential => "用户凭据",
            FileCategory::UserBookmark => "用户书签",
            FileCategory::UserHistory => "用户历史",
            FileCategory::UserPreference => "用户偏好",
            FileCategory::UserTheme => "用户主题",
            FileCategory::UserFont => "用户字体",
            FileCategory::UserMacro => "用户宏",
            FileCategory::UserShortcut => "用户快捷方式",
            FileCategory::UserEmail => "用户邮件",
            FileCategory::UserContact => "用户联系人",
            FileCategory::UserCalendar => "用户日历",
            FileCategory::Unknown => "未知",
            FileCategory::GenericTemp => "通用临时文件",
            FileCategory::GenericLog => "通用日志",
            FileCategory::GenericCache => "通用缓存",
            FileCategory::GenericBackup => "通用备份",
            FileCategory::GenericInstaller => "通用安装包",
            FileCategory::GenericDownload => "通用下载",
            FileCategory::GenericFragment => "文件碎片",
            FileCategory::GenericArtifact => "构建产物",
            FileCategory::Other => "其他",
        }
    }
}

/// How important a file is to the system or an application: the impact of deleting it.
#[derive(Debug, Clone, Copy, PartialEq, Eq, Hash, Structural)]
pub enum FileImportance {
    /// Deleting it breaks booting or crashes the system.
    Critical,
    /// Deleting it breaks an application or loses data.
    Essential,
    /// Deleting it degrades performance only.
    Performance,
    /// Rebuilt automatically after deletion.
    Optional,
    /// Safe to delete without any effect.
    Disposable,
}

impl FileImportance {
    pub open spec fn spec_base_score(self) -> u8 {
        match self {
            FileImportance::Critical => 100,
            FileImportance::Essential => 70,
            FileImportance::Performance => 40,
            FileImportance::Optional => 20,
            FileImportance::Disposable => 5,
        }
    }

    pub open spec fn spec_label(self) -> Seq<char> {
        match self {
            FileImportance::Critical => "关键"@,
            FileImportance::Essential => "重要"@,
            FileImportance::Performance => "性能"@,
            FileImportance::Optional => "可选"@,
            FileImportance::Disposable => "可丢弃"@,
        }
    }

    pub open spec fn spec_impact_description(self) -> Seq<char> {
        match self {
            FileImportance::Critical => "删除会导致系统无法启动或崩溃"@,
            FileImportance::Essential => "删除会导致应用无法运行或数据丢失"@,
            FileImportance::Performance => "删除后性能可能下降，但功能正常"@,
            FileImportance::Optional => "删除后自动重建，无持久影响"@,
            FileImportance::Disposable => "安全删除，无任何影响"@,
        }
    }

    /// Base risk score (0-100).
    pub fn base_score(self) -> (r: u8)
        ensures
            r == self.spec_base_score(),
            r <= 100,
    {
        match self {
            FileImportance::Critical => 100,
            FileImportance::Essential => 70,
            FileImportance::Performance => 40,
            FileImportance::Optional => 20,
            FileImportance::Disposable => 5,
        }
    }

    /// Chinese label.
    pub fn label(self) -> (r: &'static str)
        ensures
            r@ == self.spec_label(),
    {
        match self {
            FileImportance::Critical => "关键",
            FileImportance::Essential => "重要",
            FileImportance::Performance => "性能",
            FileImportance::Optional => "可选",
            FileImportance::Disposable => "可丢弃",
        }
    }

    /// What deleting such a file does.
    pub fn impact_description(self) -> (r: &'static str)
        ensures
            r@ == self.spec_impact_description(),
    {
        match self {
            FileImportance::Critical => "删除会导致系统无法启动或崩溃",
            FileImportance::Essential => "删除会导致应用无法运行或数据丢失",
            FileImportance::Performance => "删除后性能可能下降，但功能正常",
            FileImportance::Optional => "删除后自动重建，无持久影响",
            FileImportance::Disposable => "安全删除，无任何影响",
        }
    }
}

/// The full classification of one file or directory.
#[derive(Debug, Clone)]
pub struct FileClassification {
    pub path: String,
    pub layer: SystemLayer,
    pub category: FileCategory,
    /// Owning application or component.
    pub owner: Option<String>,
    /// What the file does for that application.
    pub role_in_app: Option<String>,
    pub importance: FileImportance,
}

impl FileClassification {
    /// A classification whose layer is the category's layer, without owner or role.
    pub fn new(path: &str, category: FileCategory, importance: FileImportance) -> (r: Self)
        ensures
            r.path@ == path@,
            r.layer == category.spec_layer(),
            r.category == category,
            r.owner is None,
            r.role_in_app is None,
            r.importance == importance,
    {
        FileClassification {
            path: String::from_str(path),
            layer: category.layer(),
            category,
            owner: None,
            role_in_app: None,
            importance,
        }
    }

    /// Sets the owning application.
    pub fn with_owner(self, owner: &str) -> (r: Self)
        ensures
            r.owner matches Some(o) && o@ == owner@,
            r.path == self.path,
            r.layer == self.layer,
            r.category == self.category,
            r.role_in_app == self.role_in_app,
            r.importance == self.importance,
    {
        FileClassification { owner: Some(String::from_str(owner)), ..self }
    }

    /// Sets the role of the file in its application.
    pub fn with_role(self, role: &str) -> (r: Self)
        ensures
            r.role_in_app matches Some(o) && o@ == role@,
            r.path == self.path,
            r.layer == self.layer,
            r.category == self.category,
            r.owner == self.owner,
            r.importance == self.importance,
    {
        FileClassification { role_in_app: Some(String::from_str(role)), ..self }
    }
}

} // verus!
