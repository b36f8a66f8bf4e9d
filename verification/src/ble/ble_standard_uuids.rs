//! The UUIDs the Bluetooth Special Interest Group assigns to standard
//! services, characteristics and descriptors. Each identifier is a 16-bit
//! UUID, so each occupies two bytes of an advertisement payload.

use vstd::prelude::*;

verus! {

/// The identifiers of standard Bluetooth Low Energy services, each assigned by the
/// Bluetooth Special Interest Group.
#[derive(Debug, Clone, Copy, PartialEq, Eq, Hash, Structural)]
pub enum StandardServiceId {
    GAP,
    GATT,
    ImmediateAlert,
    LinkLoss,
    TxPower,
    CurrentTime,
    ReferenceTimeUpdate,
    NextDSTChange,
    Glucose,
    HealthThermometer,
    DeviceInformation,
    HeartRate,
    PhoneAlertStatus,
    Battery,
    BloodPressure,
    AlertNotification,
    HumanInterfaceDevice,
    ScanParameters,
    RunningSpeedAndCadence,
    AutomationIO,
    CyclingSpeedAndCadence,
    CyclingPower,
    LocationAndNavigation,
    EnvironmentalSensing,
    BodyComposition,
    UserData,
    WeightScale,
    BondManagement,
    ContinuousGlucoseMonitoring,
    InternetProtocolSupport,
    IndoorPositioning,
    PulseOximeter,
    HTTPProxy,
    TransportDiscovery,
    ObjectTransfer,
    FitnessMachine,
    MeshProvisioning,
    MeshProxy,
    ReconnectionConfiguration,
    InsulinDelivery,
    BinarySensor,
    EmergencyConfiguration,
    AuthorizationControl,
    PhysicalActivityMonitor,
    ElapsedTime,
    GenericHealthSensor,
    AudioInputControl,
    VolumeControl,
    VolumeOffsetControl,
    CoordinatedSetIdentification,
    DeviceTime,
    MediaControl,
    GenericMediaControl,
    ConstantToneExtension,
    TelephoneBearer,
    GenericTelephoneBearer,
    MicrophoneControl,
    AudioStreamControl,
    BroadcastAudioScan,
    PublishedAudioCapabilities,
    BasicAudioAnnouncement,
    BroadcastAudioAnnouncement,
    CommonAudio,
    HearingAccess,
    TelephonyAndMediaAudio,
    PublicBroadcastAnnouncement,
    ElectronicShelfLabel,
    GamingAudio,
    MeshProxySolicitation,
}

impl StandardServiceId {
    /// The 16-bit UUID assigned to this identifier.
    pub open spec fn code_spec(self) -> u16 {
        match self {
            StandardServiceId::GAP => 0x1800,
            StandardServiceId::GATT => 0x1801,
            StandardServiceId::ImmediateAlert => 0x1802,
            StandardServiceId::LinkLoss => 0x1803,
            StandardServiceId::TxPower => 0x1804,
            StandardServiceId::CurrentTime => 0x1805,
            StandardServiceId::ReferenceTimeUpdate => 0x1806,
            StandardServiceId::NextDSTChange => 0x1807,
            StandardServiceId::Glucose => 0x1808,
            StandardServiceId::HealthThermometer => 0x1809,
            StandardServiceId::DeviceInformation => 0x180A,
            StandardServiceId::HeartRate => 0x180D,
            StandardServiceId::PhoneAlertStatus => 0x180E,
            StandardServiceId::Battery => 0x180F,
            StandardServiceId::BloodPressure => 0x1810,
            StandardServiceId::AlertNotification => 0x1811,
            StandardServiceId::HumanInterfaceDevice => 0x1812,
            StandardServiceId::ScanParameters => 0x1813,
            StandardServiceId::RunningSpeedAndCadence => 0x1814,
            StandardServiceId::AutomationIO => 0x1815,
            StandardServiceId::CyclingSpeedAndCadence => 0x1816,
            StandardServiceId::CyclingPower => 0x1818,
            StandardServiceId::LocationAndNavigation => 0x1819,
            StandardServiceId::EnvironmentalSensing => 0x181A,
            StandardServiceId::BodyComposition => 0x181B,
            StandardServiceId::UserData => 0x181C,
            StandardServiceId::WeightScale => 0x181D,
            StandardServiceId::BondManagement => 0x181E,
            StandardServiceId::ContinuousGlucoseMonitoring => 0x181F,
            StandardServiceId::InternetProtocolSupport => 0x1820,
            StandardServiceId::IndoorPositioning => 0x1821,
            StandardServiceId::PulseOximeter => 0x1822,
            StandardServiceId::HTTPProxy => 0x1823,
            StandardServiceId::TransportDiscovery => 0x1824,
            StandardServiceId::ObjectTransfer => 0x1825,
            StandardServiceId::FitnessMachine => 0x1826,
            StandardServiceId::MeshProvisioning => 0x1827,
            StandardServiceId::MeshProxy => 0x1828,
            StandardServiceId::ReconnectionConfiguration => 0x1829,
            StandardServiceId::InsulinDelivery => 0x183A,
            StandardServiceId::BinarySensor => 0x183B,
            StandardServiceId::EmergencyConfiguration => 0x183C,
            StandardServiceId::AuthorizationControl => 0x183D,
            StandardServiceId::PhysicalActivityMonitor => 0x183E,
            StandardServiceId::ElapsedTime => 0x183F,
            StandardServiceId::GenericHealthSensor => 0x1840,
            StandardServiceId::AudioInputControl => 0x1843,
            StandardServiceId::VolumeControl => 0x1844,
            StandardServiceId::VolumeOffsetControl => 0x1845,
            StandardServiceId::CoordinatedSetIdentification => 0x1846,
            StandardServiceId::DeviceTime => 0x1847,
            StandardServiceId::MediaControl => 0x1848,
            StandardServiceId::GenericMediaControl => 0x1849,
            StandardServiceId::ConstantToneExtension => 0x184A,
            StandardServiceId::TelephoneBearer => 0x184B,
            StandardServiceId::GenericTelephoneBearer => 0x184C,
            StandardServiceId::MicrophoneControl => 0x184D,
            StandardServiceId::AudioStreamControl => 0x184E,
            StandardServiceId::BroadcastAudioScan => 0x184F,
            StandardServiceId::PublishedAudioCapabilities => 0x1850,
            StandardServiceId::BasicAudioAnnouncement => 0x1851,
            StandardServiceId::BroadcastAudioAnnouncement => 0x1852,
            StandardServiceId::CommonAudio => 0x1853,
            StandardServiceId::HearingAccess => 0x1854,
            StandardServiceId::TelephonyAndMediaAudio => 0x1855,
            StandardServiceId::PublicBroadcastAnnouncement => 0x1856,
            StandardServiceId::ElectronicShelfLabel => 0x1857,
            StandardServiceId::GamingAudio => 0x1858,
            StandardServiceId::MeshProxySolicitation => 0x1859,
        }
    }

    /// The 16-bit UUID assigned to this identifier.
    pub fn code(&self) -> (code: u16)
        ensures
            code == self.code_spec(),
    {
        match self {
            StandardServiceId::GAP => 0x1800,
            StandardServiceId::GATT => 0x1801,
            StandardServiceId::ImmediateAlert => 0x1802,
            StandardServiceId::LinkLoss => 0x1803,
            StandardServiceId::TxPower => 0x1804,
            StandardServiceId::CurrentTime => 0x1805,
            StandardServiceId::ReferenceTimeUpdate => 0x1806,
            StandardServiceId::NextDSTChange => 0x1807,
            StandardServiceId::Glucose => 0x1808,
            StandardServiceId::HealthThermometer => 0x1809,
            StandardServiceId::DeviceInformation => 0x180A,
            StandardServiceId::HeartRate => 0x180D,
            StandardServiceId::PhoneAlertStatus => 0x180E,
            StandardServiceId::Battery => 0x180F,
            StandardServiceId::BloodPressure => 0x1810,
            StandardServiceId::AlertNotification => 0x1811,
            StandardServiceId::HumanInterfaceDevice => 0x1812,
            StandardServiceId::ScanParameters => 0x1813,
            StandardServiceId::RunningSpeedAndCadence => 0x1814,
            StandardServiceId::AutomationIO => 0x1815,
            StandardServiceId::CyclingSpeedAndCadence => 0x1816,
            StandardServiceId::CyclingPower => 0x1818,
            StandardServiceId::LocationAndNavigation => 0x1819,
            StandardServiceId::EnvironmentalSensing => 0x181A,
            StandardServiceId::BodyComposition => 0x181B,
            StandardServiceId::UserData => 0x181C,
            StandardServiceId::WeightScale => 0x181D,
            StandardServiceId::BondManagement => 0x181E,
            StandardServiceId::ContinuousGlucoseMonitoring => 0x181F,
            StandardServiceId::InternetProtocolSupport => 0x1820,
            StandardServiceId::IndoorPositioning => 0x1821,
            StandardServiceId::PulseOximeter => 0x1822,
            StandardServiceId::HTTPProxy => 0x1823,
            StandardServiceId::TransportDiscovery => 0x1824,
            StandardServiceId::ObjectTransfer => 0x1825,
            StandardServiceId::FitnessMachine => 0x1826,
            StandardServiceId::MeshProvisioning => 0x1827,
            StandardServiceId::MeshProxy => 0x1828,
            StandardServiceId::ReconnectionConfiguration => 0x1829,
            StandardServiceId::InsulinDelivery => 0x183A,
            StandardServiceId::BinarySensor => 0x183B,
            StandardServiceId::EmergencyConfiguration => 0x183C,
            StandardServiceId::AuthorizationControl => 0x183D,
            StandardServiceId::PhysicalActivityMonitor => 0x183E,
            StandardServiceId::ElapsedTime => 0x183F,
            StandardServiceId::GenericHealthSensor => 0x1840,
            StandardServiceId::AudioInputControl => 0x1843,
            StandardServiceId::VolumeControl => 0x1844,
            StandardServiceId::VolumeOffsetControl => 0x1845,
            StandardServiceId::CoordinatedSetIdentification => 0x1846,
            StandardServiceId::DeviceTime => 0x1847,
            StandardServiceId::MediaControl => 0x1848,
            StandardServiceId::GenericMediaControl => 0x1849,
            StandardServiceId::ConstantToneExtension => 0x184A,
            StandardServiceId::TelephoneBearer => 0x184B,
            StandardServiceId::GenericTelephoneBearer => 0x184C,
            StandardServiceId::MicrophoneControl => 0x184D,
            StandardServiceId::AudioStreamControl => 0x184E,
            StandardServiceId::BroadcastAudioScan => 0x184F,
            StandardServiceId::PublishedAudioCapabilities => 0x1850,
            StandardServiceId::BasicAudioAnnouncement => 0x1851,
            StandardServiceId::BroadcastAudioAnnouncement => 0x1852,
            StandardServiceId::CommonAudio => 0x1853,
            StandardServiceId::HearingAccess => 0x1854,
            StandardServiceId::TelephonyAndMediaAudio => 0x1855,
            StandardServiceId::PublicBroadcastAnnouncement => 0x1856,
            StandardServiceId::ElectronicShelfLabel => 0x1857,
            StandardServiceId::GamingAudio => 0x1858,
            StandardServiceId::MeshProxySolicitation => 0x1859,
        }
    }

    /// How many bytes this identifier occupies in a payload.
    pub fn byte_size(&self) -> (size: usize)
        ensures
            size == 2,
    {
        2
    }
}

/// The identifiers of standard Bluetooth Low Energy characteristics, each assigned by the
/// Bluetooth Special Interest Group.
#[derive(Debug, Clone, Copy, PartialEq, Eq, Hash, Structural)]
pub enum StandardCharacteristicId {
    DeviceName,
    Appearance,
    PeripheralPrivacyFlag,
    ReconnectionAddress,
    PeripheralPreferredConnectionParameters,
    ServiceChanged,
    AlertLevel,
    TxPowerLevel,
    DateTime,
    DayofWeek,
    DayDateTime,
    ExactTime256,
    DSTOffset,
    TimeZone,
    LocalTimeInformation,
    TimewithDST,
    TimeAccuracy,
    TimeSource,
    ReferenceTimeInformation,
    TimeUpdateControlPoint,
    TimeUpdateState,
    GlucoseMeasurement,
    BatteryLevel,
    TemperatureMeasurement,
    TemperatureType,
    IntermediateTemperature,
    MeasurementInterval,
    BootKeyboardInputReport,
    SystemID,
    ModelNumberString,
    SerialNumberString,
    FirmwareRevisionString,
    HardwareRevisionString,
    SoftwareRevisionString,
    ManufacturerNameString,
    IEEE1107320601RegulatoryCertificationDataList,
    CurrentTime,
    MagneticDeclination,
    ScanRefresh,
    BootKeyboardOutputReport,
    BootMouseInputReport,
    GlucoseMeasurementContext,
    BloodPressureMeasurement,
    IntermediateCuffPressure,
    HeartRateMeasurement,
    BodySensorLocation,
    HeartRateControlPoint,
    AlertStatus,
    RingerControlPoint,
    RingerSetting,
    AlertCategoryIDBitMask,
    AlertCategoryID,
    AlertNotificationControlPoint,
    UnreadAlertStatus,
    NewAlert,
    SupportedNewAlertCategory,
    SupportedUnreadAlertCategory,
    BloodPressureFeature,
    HIDInformation,
    ReportMap,
    HIDControlPoint,
    Report,
    ProtocolMode,
    ScanIntervalWindow,
    PnPID,
    GlucoseFeature,
    RecordAccessControlPoint,
    RSCMeasurement,
    RSCFeature,
    SCControlPoint,
    Aggregate,
    CSCMeasurement,
    CSCFeature,
    SensorLocation,
    PLXSpotCheckMeasurement,
    PLXContinuousMeasurement,
    PLXFeatures,
    CyclingPowerMeasurement,
    CyclingPowerVector,
    CyclingPowerFeature,
    CyclingPowerControlPoint,
    LocationandSpeed,
    Navigation,
    PositionQuality,
    LNFeature,
    LNControlPoint,
    Elevation,
    Pressure,
    Temperature,
    Humidity,
    TrueWindSpeed,
    TrueWindDirection,
    ApparentWindSpeed,
    ApparentWindDirection,
    GustFactor,
    PollenConcentration,
    UVIndex,
    Irradiance,
    Rainfall,
    WindChill,
    HeatIndex,
    DewPoint,
    DescriptorValueChanged,
    AerobicHeartRateLowerLimit,
    AerobicThreshold,
    Age,
    AnaerobicHeartRateLowerLimit,
    AnaerobicHeartRateUpperLimit,
    AnaerobicThreshold,
    AerobicHeartRateUpperLimit,
    DateofBirth,
    DateofThresholdAssessment,
    EmailAddress,
    FatBurnHeartRateLowerLimit,
    FatBurnHeartRateUpperLimit,
    FirstName,
    FiveZoneHeartRateLimits,
    Gender,
    HeartRateMax,
    Height,
    HipCircumference,
    LastName,
    MaximumRecommendedHeartRate,
    RestingHeartRate,
    SportTypeforAerobicandAnaerobicThresholds,
    ThreeZoneHeartRateLimits,
    TwoZoneHeartRateLimits,
    VO2Max,
    WaistCircumference,
    Weight,
    DatabaseChangeIncrement,
    UserIndex,
    BodyCompositionFeature,
    BodyCompositionMeasurement,
    WeightMeasurement,
    WeightScaleFeature,
    UserControlPoint,
    MagneticFluxDensity2D,
    MagneticFluxDensity3D,
    Language,
    BarometricPressureTrend,
    BondManagementControlPoint,
    BondManagementFeature,
    CentralAddressResolution,
    CGMMeasurement,
    CGMFeature,
    CGMStatus,
    CGMSessionStartTime,
    CGMSessionRunTime,
    CGMSpecificOpsControlPoint,
    IndoorPositioningConfiguration,
    Latitude,
    Longitude,
    LocalNorthCoordinate,
    LocalEastCoordinate,
    FloorNumber,
    Altitude,
    Uncertainty,
    LocationName,
    URI,
    HTTPHeaders,
    HTTPStatusCode,
    HTTPEntityBody,
    HTTPControlPoint,
    HTTPSSecurity,
    TDSControlPoint,
    OTSFeature,
    ObjectName,
    ObjectType,
    ObjectSize,
    ObjectFirstCreated,
    ObjectLastModified,
    ObjectID,
    ObjectProperties,
    ObjectActionControlPoint,
    ObjectListControlPoint,
    ObjectListFilter,
    ObjectChanged,
    ResolvablePrivateAddressOnly,
    FitnessMachineFeature,
    TreadmillData,
    CrossTrainerData,
    StepClimberData,
    StairClimberData,
    RowerData,
    IndoorBikeData,
    TrainingStatus,
    SupportedSpeedRange,
    SupportedInclinationRange,
    SupportedResistanceLevelRange,
    SupportedHeartRateRange,
    SupportedPowerRange,
    FitnessMachineControlPoint,
    FitnessMachineStatus,
    MeshProvisioningDataIn,
    MeshProvisioningDataOut,
    MeshProxyDataIn,
    MeshProxyDataOut,
    AverageCurrent,
    AverageVoltage,
    Boolean,
    ChromaticDistancefromPlanckian,
    ChromaticityCoordinates,
    ChromaticityinCCTandDuvValues,
    ChromaticityTolerance,
    CIE1331995ColorRenderingIndex,
    Coefficient,
    CorrelatedColorTemperature,
    Count16,
    Count24,
    CountryCode,
    DateUTC,
    ElectricCurrent,
    ElectricCurrentRange,
    ElectricCurrentSpecification,
    ElectricCurrentStatistics,
    Energy,
    EnergyinaPeriodofDay,
    EventStatistics,
    FixedString16,
    FixedString24,
    FixedString36,
    FixedString8,
    GenericLevel,
    GlobalTradeItemNumber,
    Illuminance,
    LuminousEfficacy,
    LuminousEnergy,
    LuminousExposure,
    LuminousFlux,
    LuminousFluxRange,
    LuminousIntensity,
    MassFlow,
    PerceivedLightness,
    Percentage8,
    Power,
    PowerSpecification,
    RelativeRuntimeinaCurrentRange,
    RelativeRuntimeinaGenericLevelRange,
    RelativeValueinaVoltageRange,
    RelativeValueinanIlluminanceRange,
    RelativeValueinaPeriodofDay,
    RelativeValueinaTemperatureRange,
    Temperature8,
    Temperature8inaPeriodofDay,
    Temperature8Statistics,
    TemperatureRange,
    TemperatureStatistics,
    TimeDecihour8,
    TimeExponential8,
    TimeHour24,
    TimeMillisecond24,
    TimeSecond16,
    TimeSecond8,
    Voltage,
    VoltageSpecification,
    VoltageStatistics,
    VolumeFlow,
    ChromaticityCoordinate,
    RCFeature,
    RCSettings,
    ReconnectionConfigurationControlPoint,
    IDDStatusChanged,
    IDDStatus,
    IDDAnnunciationStatus,
    IDDFeatures,
    IDDStatusReaderControlPoint,
    IDDCommandControlPoint,
    IDDCommandData,
    IDDRecordAccessControlPoint,
    IDDHistoryData,
    ClientSupportedFeatures,
    DatabaseHash,
    BSSControlPoint,
    BSSResponse,
    EmergencyID,
    EmergencyText,
    ACSStatus,
    ACSDataIn,
    ACSDataOutNotify,
    ACSDataOutIndicate,
    ACSControlPoint,
    EnhancedBloodPressureMeasurement,
    EnhancedIntermediateCuffPressure,
    BloodPressureRecord,
    RegisteredUser,
    BREDRHandoverData,
    BluetoothSIGData,
    ServerSupportedFeatures,
    PhysicalActivityMonitorFeatures,
    GeneralActivityInstantaneousData,
    GeneralActivitySummaryData,
    CardioRespiratoryActivityInstantaneousData,
    CardioRespiratoryActivitySummaryData,
    StepCounterActivitySummaryData,
    SleepActivityInstantaneousData,
    SleepActivitySummaryData,
    PhysicalActivityMonitorControlPoint,
    PhysicalActivityCurrentSession,
    PhysicalActivitySessionDescriptor,
    PreferredUnits,
    HighResolutionHeight,
    MiddleName,
    StrideLength,
    Handedness,
    DeviceWearingPosition,
    FourZoneHeartRateLimits,
    HighIntensityExerciseThreshold,
    ActivityGoal,
    SedentaryIntervalNotification,
    CaloricIntake,
    TMAPRole,
    AudioInputState,
    GainSettingsAttribute,
    AudioInputType,
    AudioInputStatus,
    AudioInputControlPoint,
    AudioInputDescription,
    VolumeState,
    VolumeControlPoint,
    VolumeFlags,
    VolumeOffsetState,
    AudioLocation,
    VolumeOffsetControlPoint,
    AudioOutputDescription,
    SetIdentityResolvingKey,
    CoordinatedSetSize,
    SetMemberLock,
    SetMemberRank,
    EncryptedDataKeyMaterial,
    ApparentEnergy32,
    ApparentPower,
    LiveHealthObservations,
    COtextsubscript2Concentration,
    CosineoftheAngle,
    DeviceTimeFeature,
    DeviceTimeParameters,
    DeviceTime,
    DeviceTimeControlPoint,
    TimeChangeLogData,
    MediaPlayerName,
    MediaPlayerIconObjectID,
    MediaPlayerIconURL,
    TrackChanged,
    TrackTitle,
    TrackDuration,
    TrackPosition,
    PlaybackSpeed,
    SeekingSpeed,
    CurrentTrackSegmentsObjectID,
    CurrentTrackObjectID,
    NextTrackObjectID,
    ParentGroupObjectID,
    CurrentGroupObjectID,
    PlayingOrder,
    PlayingOrdersSupported,
    MediaState,
    MediaControlPoint,
    MediaControlPointOpcodesSupported,
    SearchResultsObjectID,
    SearchControlPoint,
    Energy32,
    ConstantToneExtensionEnable,
    AdvertisingConstantToneExtensionMinimumLength,
    AdvertisingConstantToneExtensionMinimumTransmitCount,
    AdvertisingConstantToneExtensionTransmitDuration,
    AdvertisingConstantToneExtensionInterval,
    AdvertisingConstantToneExtensionPHY,
    BearerProviderName,
    BearerUCI,
    BearerTechnology,
    BearerURISchemesSupportedList,
    BearerSignalStrength,
    BearerSignalStrengthReportingInterval,
    BearerListCurrentCalls,
    ContentControlID,
    StatusFlags,
    IncomingCallTargetBearerURI,
    CallState,
    CallControlPoint,
    CallControlPointOptionalOpcodes,
    TerminationReason,
    IncomingCall,
    CallFriendlyName,
    Mute,
    SinkASE,
    SourceASE,
    ASEControlPoint,
    BroadcastAudioScanControlPoint,
    BroadcastReceiveState,
    SinkPAC,
    SinkAudioLocations,
    SourcePAC,
    SourceAudioLocations,
    AvailableAudioContexts,
    SupportedAudioContexts,
    AmmoniaConcentration,
    CarbonMonoxideConcentration,
    MethaneConcentration,
    NitrogenDioxideConcentration,
    NonMethaneVolatileOrganicCompoundsConcentration,
    OzoneConcentration,
    ParticulateMatterPM1Concentration,
    ParticulateMatterPM25Concentration,
    ParticulateMatterPM10Concentration,
    SulfurDioxideConcentration,
    SulfurHexafluorideConcentration,
    HearingAidFeatures,
    HearingAidPresetControlPoint,
    ActivePresetIndex,
    StoredHealthObservations,
    FixedString64,
    HighTemperature,
    HighVoltage,
    LightDistribution,
    LightOutput,
    LightSourceType,
    Noise,
    RelativeRuntimeinaCorrelatedColorTemperatureRange,
    TimeSecond32,
    VOCConcentration,
    VoltageFrequency,
    BatteryCriticalStatus,
    BatteryHealthStatus,
    BatteryHealthInformation,
    BatteryInformation,
    BatteryLevelStatus,
    BatteryTimeStatus,
    EstimatedServiceDate,
    BatteryEnergyStatus,
    ObservationScheduleChanged,
    CurrentElapsedTime,
    HealthSensorFeatures,
    GHSControlPoint,
    LEGATTSecurityLevels,
    ESLAddress,
    APSyncKeyMaterial,
    ESLResponseKeyMaterial,
    ESLCurrentAbsoluteTime,
    ESLDisplayInformation,
    ESLImageInformation,
    ESLSensorInformation,
    ESLLEDInformation,
    ESLControlPoint,
    UDIforMedicalDevices,
    GMAPRole,
    UGGFeatures,
    UGTFeatures,
    BGSFeatures,
    BGRFeatures,
    Percentage8Steps,
}

impl StandardCharacteristicId {
    /// The 16-bit UUID assigned to this identifier.
    pub open spec fn code_spec(self) -> u16 {
        match self {
            StandardCharacteristicId::DeviceName => 0x2A00,
            StandardCharacteristicId::Appearance => 0x2A01,
            StandardCharacteristicId::PeripheralPrivacyFlag => 0x2A02,
            StandardCharacteristicId::ReconnectionAddress => 0x2A03,
            StandardCharacteristicId::PeripheralPreferredConnectionParameters => 0x2A04,
            StandardCharacteristicId::ServiceChanged => 0x2A05,
            StandardCharacteristicId::AlertLevel => 0x2A06,
            StandardCharacteristicId::TxPowerLevel => 0x2A07,
            StandardCharacteristicId::DateTime => 0x2A08,
            StandardCharacteristicId::DayofWeek => 0x2A09,
            StandardCharacteristicId::DayDateTime => 0x2A0A,
            StandardCharacteristicId::ExactTime256 => 0x2A0C,
            StandardCharacteristicId::DSTOffset => 0x2A0D,
            StandardCharacteristicId::TimeZone => 0x2A0E,
            StandardCharacteristicId::LocalTimeInformation => 0x2A0F,
            StandardCharacteristicId::TimewithDST => 0x2A11,
            StandardCharacteristicId::TimeAccuracy => 0x2A12,
            StandardCharacteristicId::TimeSource => 0x2A13,
            StandardCharacteristicId::ReferenceTimeInformation => 0x2A14,
            StandardCharacteristicId::TimeUpdateControlPoint => 0x2A16,
            StandardCharacteristicId::TimeUpdateState => 0x2A17,
            StandardCharacteristicId::GlucoseMeasurement => 0x2A18,
            StandardCharacteristicId::BatteryLevel => 0x2A19,
            StandardCharacteristicId::TemperatureMeasurement => 0x2A1C,
            StandardCharacteristicId::TemperatureType => 0x2A1D,
            StandardCharacteristicId::IntermediateTemperature => 0x2A1E,
            StandardCharacteristicId::MeasurementInterval => 0x2A21,
            StandardCharacteristicId::BootKeyboardInputReport => 0x2A22,
            StandardCharacteristicId::SystemID => 0x2A23,
            StandardCharacteristicId::ModelNumberString => 0x2A24,
            StandardCharacteristicId::SerialNumberString => 0x2A25,
            StandardCharacteristicId::FirmwareRevisionString => 0x2A26,
            StandardCharacteristicId::HardwareRevisionString => 0x2A27,
            StandardCharacteristicId::SoftwareRevisionString => 0x2A28,
            StandardCharacteristicId::ManufacturerNameString => 0x2A29,
            StandardCharacteristicId::IEEE1107320601RegulatoryCertificationDataList => 0x2A2A,
            StandardCharacteristicId::CurrentTime => 0x2A2B,
            StandardCharacteristicId::MagneticDeclination => 0x2A2C,
            StandardCharacteristicId::ScanRefresh => 0x2A31,
            StandardCharacteristicId::BootKeyboardOutputReport => 0x2A32,
            StandardCharacteristicId::BootMouseInputReport => 0x2A33,
            StandardCharacteristicId::GlucoseMeasurementContext => 0x2A34,
            StandardCharacteristicId::BloodPressureMeasurement => 0x2A35,
            StandardCharacteristicId::IntermediateCuffPressure => 0x2A36,
            StandardCharacteristicId::HeartRateMeasurement => 0x2A37,
            StandardCharacteristicId::BodySensorLocation => 0x2A38,
            StandardCharacteristicId::HeartRateControlPoint => 0x2A39,
            StandardCharacteristicId::AlertStatus => 0x2A3F,
            StandardCharacteristicId::RingerControlPoint => 0x2A40,
            StandardCharacteristicId::RingerSetting => 0x2A41,
            StandardCharacteristicId::AlertCategoryIDBitMask => 0x2A42,
            StandardCharacteristicId::AlertCategoryID => 0x2A43,
            StandardCharacteristicId::AlertNotificationControlPoint => 0x2A44,
            StandardCharacteristicId::UnreadAlertStatus => 0x2A45,
            StandardCharacteristicId::NewAlert => 0x2A46,
            StandardCharacteristicId::SupportedNewAlertCategory => 0x2A47,
            StandardCharacteristicId::SupportedUnreadAlertCategory => 0x2A48,
            StandardCharacteristicId::BloodPressureFeature => 0x2A49,
            StandardCharacteristicId::HIDInformation => 0x2A4A,
            StandardCharacteristicId::ReportMap => 0x2A4B,
            StandardCharacteristicId::HIDControlPoint => 0x2A4C,
            StandardCharacteristicId::Report => 0x2A4D,
            StandardCharacteristicId::ProtocolMode => 0x2A4E,
            StandardCharacteristicId::ScanIntervalWindow => 0x2A4F,
            StandardCharacteristicId::PnPID => 0x2A50,
            StandardCharacteristicId::GlucoseFeature => 0x2A51,
            StandardCharacteristicId::RecordAccessControlPoint => 0x2A52,
            StandardCharacteristicId::RSCMeasurement => 0x2A53,
            StandardCharacteristicId::RSCFeature => 0x2A54,
            StandardCharacteristicId::SCControlPoint => 0x2A55,
            StandardCharacteristicId::Aggregate => 0x2A5A,
            StandardCharacteristicId::CSCMeasurement => 0x2A5B,
            StandardCharacteristicId::CSCFeature => 0x2A5C,
            StandardCharacteristicId::SensorLocation => 0x2A5D,
            StandardCharacteristicId::PLXSpotCheckMeasurement => 0x2A5E,
            StandardCharacteristicId::PLXContinuousMeasurement => 0x2A5F,
            StandardCharacteristicId::PLXFeatures => 0x2A60,
            StandardCharacteristicId::CyclingPowerMeasurement => 0x2A63,
            StandardCharacteristicId::CyclingPowerVector => 0x2A64,
            StandardCharacteristicId::CyclingPowerFeature => 0x2A65,
            StandardCharacteristicId::CyclingPowerControlPoint => 0x2A66,
            StandardCharacteristicId::LocationandSpeed => 0x2A67,
            StandardCharacteristicId::Navigation => 0x2A68,
            StandardCharacteristicId::PositionQuality => 0x2A69,
            StandardCharacteristicId::LNFeature => 0x2A6A,
            StandardCharacteristicId::LNControlPoint => 0x2A6B,
            StandardCharacteristicId::Elevation => 0x2A6C,
            StandardCharacteristicId::Pressure => 0x2A6D,
            StandardCharacteristicId::Temperature => 0x2A6E,
            StandardCharacteristicId::Humidity => 0x2A6F,
            StandardCharacteristicId::TrueWindSpeed => 0x2A70,
            StandardCharacteristicId::TrueWindDirection => 0x2A71,
            StandardCharacteristicId::ApparentWindSpeed => 0x2A72,
            StandardCharacteristicId::ApparentWindDirection => 0x2A73,
            StandardCharacteristicId::GustFactor => 0x2A74,
            StandardCharacteristicId::PollenConcentration => 0x2A75,
            StandardCharacteristicId::UVIndex => 0x2A76,
            StandardCharacteristicId::Irradiance => 0x2A77,
            StandardCharacteristicId::Rainfall => 0x2A78,
            StandardCharacteristicId::WindChill => 0x2A79,
            StandardCharacteristicId::HeatIndex => 0x2A7A,
            StandardCharacteristicId::DewPoint => 0x2A7B,
            StandardCharacteristicId::DescriptorValueChanged => 0x2A7D,
            StandardCharacteristicId::AerobicHeartRateLowerLimit => 0x2A7E,
            StandardCharacteristicId::AerobicThreshold => 0x2A7F,
            StandardCharacteristicId::Age => 0x2A80,
            StandardCharacteristicId::AnaerobicHeartRateLowerLimit => 0x2A81,
            StandardCharacteristicId::AnaerobicHeartRateUpperLimit => 0x2A82,
            StandardCharacteristicId::AnaerobicThreshold => 0x2A83,
            StandardCharacteristicId::AerobicHeartRateUpperLimit => 0x2A84,
            StandardCharacteristicId::DateofBirth => 0x2A85,
            StandardCharacteristicId::DateofThresholdAssessment => 0x2A86,
            StandardCharacteristicId::EmailAddress => 0x2A87,
            StandardCharacteristicId::FatBurnHeartRateLowerLimit => 0x2A88,
            StandardCharacteristicId::FatBurnHeartRateUpperLimit => 0x2A89,
            StandardCharacteristicId::FirstName => 0x2A8A,
            StandardCharacteristicId::FiveZoneHeartRateLimits => 0x2A8B,
            StandardCharacteristicId::Gender => 0x2A8C,
            StandardCharacteristicId::HeartRateMax => 0x2A8D,
            StandardCharacteristicId::Height => 0x2A8E,
            StandardCharacteristicId::HipCircumference => 0x2A8F,
            StandardCharacteristicId::LastName => 0x2A90,
            StandardCharacteristicId::MaximumRecommendedHeartRate => 0x2A91,
            StandardCharacteristicId::RestingHeartRate => 0x2A92,
            StandardCharacteristicId::SportTypeforAerobicandAnaerobicThresholds => 0x2A93,
            StandardCharacteristicId::ThreeZoneHeartRateLimits => 0x2A94,
            StandardCharacteristicId::TwoZoneHeartRateLimits => 0x2A95,
            StandardCharacteristicId::VO2Max => 0x2A96,
            StandardCharacteristicId::WaistCircumference => 0x2A97,
            StandardCharacteristicId::Weight => 0x2A98,
            StandardCharacteristicId::DatabaseChangeIncrement => 0x2A99,
            StandardCharacteristicId::UserIndex => 0x2A9A,
            StandardCharacteristicId::BodyCompositionFeature => 0x2A9B,
            StandardCharacteristicId::BodyCompositionMeasurement => 0x2A9C,
            StandardCharacteristicId::WeightMeasurement => 0x2A9D,
            StandardCharacteristicId::WeightScaleFeature => 0x2A9E,
            StandardCharacteristicId::UserControlPoint => 0x2A9F,
            StandardCharacteristicId::MagneticFluxDensity2D => 0x2AA0,
            StandardCharacteristicId::MagneticFluxDensity3D => 0x2AA1,
            StandardCharacteristicId::Language => 0x2AA2,
            StandardCharacteristicId::BarometricPressureTrend => 0x2AA3,
            StandardCharacteristicId::BondManagementControlPoint => 0x2AA4,
            StandardCharacteristicId::BondManagementFeature => 0x2AA5,
            StandardCharacteristicId::CentralAddressResolution => 0x2AA6,
            StandardCharacteristicId::CGMMeasurement => 0x2AA7,
            StandardCharacteristicId::CGMFeature => 0x2AA8,
            StandardCharacteristicId::CGMStatus => 0x2AA9,
            StandardCharacteristicId::CGMSessionStartTime => 0x2AAA,
            StandardCharacteristicId::CGMSessionRunTime => 0x2AAB,
            StandardCharacteristicId::CGMSpecificOpsControlPoint => 0x2AAC,
            StandardCharacteristicId::IndoorPositioningConfiguration => 0x2AAD,
            StandardCharacteristicId::Latitude => 0x2AAE,
            StandardCharacteristicId::Longitude => 0x2AAF,
            StandardCharacteristicId::LocalNorthCoordinate => 0x2AB0,
            StandardCharacteristicId::LocalEastCoordinate => 0x2AB1,
            StandardCharacteristicId::FloorNumber => 0x2AB2,
            StandardCharacteristicId::Altitude => 0x2AB3,
            StandardCharacteristicId::Uncertainty => 0x2AB4,
            StandardCharacteristicId::LocationName => 0x2AB5,
            StandardCharacteristicId::URI => 0x2AB6,
            StandardCharacteristicId::HTTPHeaders => 0x2AB7,
            StandardCharacteristicId::HTTPStatusCode => 0x2AB8,
            StandardCharacteristicId::HTTPEntityBody => 0x2AB9,
            StandardCharacteristicId::HTTPControlPoint => 0x2ABA,
            StandardCharacteristicId::HTTPSSecurity => 0x2ABB,
            StandardCharacteristicId::TDSControlPoint => 0x2ABC,
            StandardCharacteristicId::OTSFeature => 0x2ABD,
            StandardCharacteristicId::ObjectName => 0x2ABE,
            StandardCharacteristicId::ObjectType => 0x2ABF,
            StandardCharacteristicId::ObjectSize => 0x2AC0,
            StandardCharacteristicId::ObjectFirstCreated => 0x2AC1,
            StandardCharacteristicId::ObjectLastModified => 0x2AC2,
            StandardCharacteristicId::ObjectID => 0x2AC3,
            StandardCharacteristicId::ObjectProperties => 0x2AC4,
            StandardCharacteristicId::ObjectActionControlPoint => 0x2AC5,
            StandardCharacteristicId::ObjectListControlPoint => 0x2AC6,
            StandardCharacteristicId::ObjectListFilter => 0x2AC7,
            StandardCharacteristicId::ObjectChanged => 0x2AC8,
            StandardCharacteristicId::ResolvablePrivateAddressOnly => 0x2AC9,
            StandardCharacteristicId::FitnessMachineFeature => 0x2ACC,
            StandardCharacteristicId::TreadmillData => 0x2ACD,
            StandardCharacteristicId::CrossTrainerData => 0x2ACE,
            StandardCharacteristicId::StepClimberData => 0x2ACF,
            StandardCharacteristicId::StairClimberData => 0x2AD0,
            StandardCharacteristicId::RowerData => 0x2AD1,
            StandardCharacteristicId::IndoorBikeData => 0x2AD2,
            StandardCharacteristicId::TrainingStatus => 0x2AD3,
            StandardCharacteristicId::SupportedSpeedRange => 0x2AD4,
            StandardCharacteristicId::SupportedInclinationRange => 0x2AD5,
            StandardCharacteristicId::SupportedResistanceLevelRange => 0x2AD6,
            StandardCharacteristicId::SupportedHeartRateRange => 0x2AD7,
            StandardCharacteristicId::SupportedPowerRange => 0x2AD8,
            StandardCharacteristicId::FitnessMachineControlPoint => 0x2AD9,
            StandardCharacteristicId::FitnessMachineStatus => 0x2ADA,
            StandardCharacteristicId::MeshProvisioningDataIn => 0x2ADB,
            StandardCharacteristicId::MeshProvisioningDataOut => 0x2ADC,
            StandardCharacteristicId::MeshProxyDataIn => 0x2ADD,
            StandardCharacteristicId::MeshProxyDataOut => 0x2ADE,
            StandardCharacteristicId::AverageCurrent => 0x2AE0,
            StandardCharacteristicId::AverageVoltage => 0x2AE1,
            StandardCharacteristicId::Boolean => 0x2AE2,
            StandardCharacteristicId::ChromaticDistancefromPlanckian => 0x2AE3,
            StandardCharacteristicId::ChromaticityCoordinates => 0x2AE4,
            StandardCharacteristicId::ChromaticityinCCTandDuvValues => 0x2AE5,
            StandardCharacteristicId::ChromaticityTolerance => 0x2AE6,
            StandardCharacteristicId::CIE1331995ColorRenderingIndex => 0x2AE7,
            StandardCharacteristicId::Coefficient => 0x2AE8,
            StandardCharacteristicId::CorrelatedColorTemperature => 0x2AE9,
            StandardCharacteristicId::Count16 => 0x2AEA,
            StandardCharacteristicId::Count24 => 0x2AEB,
            StandardCharacteristicId::CountryCode => 0x2AEC,
            StandardCharacteristicId::DateUTC => 0x2AED,
            StandardCharacteristicId::ElectricCurrent => 0x2AEE,
            StandardCharacteristicId::ElectricCurrentRange => 0x2AEF,
            StandardCharacteristicId::ElectricCurrentSpecification => 0x2AF0,
            StandardCharacteristicId::ElectricCurrentStatistics => 0x2AF1,
            StandardCharacteristicId::Energy => 0x2AF2,
            StandardCharacteristicId::EnergyinaPeriodofDay => 0x2AF3,
            StandardCharacteristicId::EventStatistics => 0x2AF4,
            StandardCharacteristicId::FixedString16 => 0x2AF5,
            StandardCharacteristicId::FixedString24 => 0x2AF6,
            StandardCharacteristicId::FixedString36 => 0x2AF7,
            StandardCharacteristicId::FixedString8 => 0x2AF8,
            StandardCharacteristicId::GenericLevel => 0x2AF9,
            StandardCharacteristicId::GlobalTradeItemNumber => 0x2AFA,
            StandardCharacteristicId::Illuminance => 0x2AFB,
            StandardCharacteristicId::LuminousEfficacy => 0x2AFC,
            StandardCharacteristicId::LuminousEnergy => 0x2AFD,
            StandardCharacteristicId::LuminousExposure => 0x2AFE,
            StandardCharacteristicId::LuminousFlux => 0x2AFF,
            StandardCharacteristicId::LuminousFluxRange => 0x2B00,
            StandardCharacteristicId::LuminousIntensity => 0x2B01,
            StandardCharacteristicId::MassFlow => 0x2B02,
            StandardCharacteristicId::PerceivedLightness => 0x2B03,
            StandardCharacteristicId::Percentage8 => 0x2B04,
            StandardCharacteristicId::Power => 0x2B05,
            StandardCharacteristicId::PowerSpecification => 0x2B06,
            StandardCharacteristicId::RelativeRuntimeinaCurrentRange => 0x2B07,
            StandardCharacteristicId::RelativeRuntimeinaGenericLevelRange => 0x2B08,
            StandardCharacteristicId::RelativeValueinaVoltageRange => 0x2B09,
            StandardCharacteristicId::RelativeValueinanIlluminanceRange => 0x2B0A,
            StandardCharacteristicId::RelativeValueinaPeriodofDay => 0x2B0B,
            StandardCharacteristicId::RelativeValueinaTemperatureRange => 0x2B0C,
            StandardCharacteristicId::Temperature8 => 0x2B0D,
            StandardCharacteristicId::Temperature8inaPeriodofDay => 0x2B0E,
            StandardCharacteristicId::Temperature8Statistics => 0x2B0F,
            StandardCharacteristicId::TemperatureRange => 0x2B10,
            StandardCharacteristicId::TemperatureStatistics => 0x2B11,
            StandardCharacteristicId::TimeDecihour8 => 0x2B12,
            StandardCharacteristicId::TimeExponential8 => 0x2B13,
            StandardCharacteristicId::TimeHour24 => 0x2B14,
            StandardCharacteristicId::TimeMillisecond24 => 0x2B15,
            StandardCharacteristicId::TimeSecond16 => 0x2B16,
            StandardCharacteristicId::TimeSecond8 => 0x2B17,
            StandardCharacteristicId::Voltage => 0x2B18,
            StandardCharacteristicId::VoltageSpecification => 0x2B19,
            StandardCharacteristicId::VoltageStatistics => 0x2B1A,
            StandardCharacteristicId::VolumeFlow => 0x2B1B,
            StandardCharacteristicId::ChromaticityCoordinate => 0x2B1C,
            StandardCharacteristicId::RCFeature => 0x2B1D,
            StandardCharacteristicId::RCSettings => 0x2B1E,
            StandardCharacteristicId::ReconnectionConfigurationControlPoint => 0x2B1F,
            StandardCharacteristicId::IDDStatusChanged => 0x2B20,
            StandardCharacteristicId::IDDStatus => 0x2B21,
            StandardCharacteristicId::IDDAnnunciationStatus => 0x2B22,
            StandardCharacteristicId::IDDFeatures => 0x2B23,
            StandardCharacteristicId::IDDStatusReaderControlPoint => 0x2B24,
            StandardCharacteristicId::IDDCommandControlPoint => 0x2B25,
            StandardCharacteristicId::IDDCommandData => 0x2B26,
            StandardCharacteristicId::IDDRecordAccessControlPoint => 0x2B27,
            StandardCharacteristicId::IDDHistoryData => 0x2B28,
            StandardCharacteristicId::ClientSupportedFeatures => 0x2B29,
            StandardCharacteristicId::DatabaseHash => 0x2B2A,
            StandardCharacteristicId::BSSControlPoint => 0x2B2B,
            StandardCharacteristicId::BSSResponse => 0x2B2C,
            StandardCharacteristicId::EmergencyID => 0x2B2D,
            StandardCharacteristicId::EmergencyText => 0x2B2E,
            StandardCharacteristicId::ACSStatus => 0x2B2F,
            StandardCharacteristicId::ACSDataIn => 0x2B30,
            StandardCharacteristicId::ACSDataOutNotify => 0x2B31,
            StandardCharacteristicId::ACSDataOutIndicate => 0x2B32,
            StandardCharacteristicId::ACSControlPoint => 0x2B33,
            StandardCharacteristicId::EnhancedBloodPressureMeasurement => 0x2B34,
            StandardCharacteristicId::EnhancedIntermediateCuffPressure => 0x2B35,
            StandardCharacteristicId::BloodPressureRecord => 0x2B36,
            StandardCharacteristicId::RegisteredUser => 0x2B37,
            StandardCharacteristicId::BREDRHandoverData => 0x2B38,
            StandardCharacteristicId::BluetoothSIGData => 0x2B39,
            StandardCharacteristicId::ServerSupportedFeatures => 0x2B3A,
            StandardCharacteristicId::PhysicalActivityMonitorFeatures => 0x2B3B,
            StandardCharacteristicId::GeneralActivityInstantaneousData => 0x2B3C,
            StandardCharacteristicId::GeneralActivitySummaryData => 0x2B3D,
            StandardCharacteristicId::CardioRespiratoryActivityInstantaneousData => 0x2B3E,
            StandardCharacteristicId::CardioRespiratoryActivitySummaryData => 0x2B3F,
            StandardCharacteristicId::StepCounterActivitySummaryData => 0x2B40,
            StandardCharacteristicId::SleepActivityInstantaneousData => 0x2B41,
            StandardCharacteristicId::SleepActivitySummaryData => 0x2B42,
            StandardCharacteristicId::PhysicalActivityMonitorControlPoint => 0x2B43,
            StandardCharacteristicId::PhysicalActivityCurrentSession => 0x2B44,
            StandardCharacteristicId::PhysicalActivitySessionDescriptor => 0x2B45,
            StandardCharacteristicId::PreferredUnits => 0x2B46,
            StandardCharacteristicId::HighResolutionHeight => 0x2B47,
            StandardCharacteristicId::MiddleName => 0x2B48,
            StandardCharacteristicId::StrideLength => 0x2B49,
            StandardCharacteristicId::Handedness => 0x2B4A,
            StandardCharacteristicId::DeviceWearingPosition => 0x2B4B,
            StandardCharacteristicId::FourZoneHeartRateLimits => 0x2B4C,
            StandardCharacteristicId::HighIntensityExerciseThreshold => 0x2B4D,
            StandardCharacteristicId::ActivityGoal => 0x2B4E,
            StandardCharacteristicId::SedentaryIntervalNotification => 0x2B4F,
            StandardCharacteristicId::CaloricIntake => 0x2B50,
            StandardCharacteristicId::TMAPRole => 0x2B51,
            StandardCharacteristicId::AudioInputState => 0x2B77,
            StandardCharacteristicId::GainSettingsAttribute => 0x2B78,
            StandardCharacteristicId::AudioInputType => 0x2B79,
            StandardCharacteristicId::AudioInputStatus => 0x2B7A,
            StandardCharacteristicId::AudioInputControlPoint => 0x2B7B,
            StandardCharacteristicId::AudioInputDescription => 0x2B7C,
            StandardCharacteristicId::VolumeState => 0x2B7D,
            StandardCharacteristicId::VolumeControlPoint => 0x2B7E,
            StandardCharacteristicId::VolumeFlags => 0x2B7F,
            StandardCharacteristicId::VolumeOffsetState => 0x2B80,
            StandardCharacteristicId::AudioLocation => 0x2B81,
            StandardCharacteristicId::VolumeOffsetControlPoint => 0x2B82,
            StandardCharacteristicId::AudioOutputDescription => 0x2B83,
            StandardCharacteristicId::SetIdentityResolvingKey => 0x2B84,
            StandardCharacteristicId::CoordinatedSetSize => 0x2B85,
            StandardCharacteristicId::SetMemberLock => 0x2B86,
            StandardCharacteristicId::SetMemberRank => 0x2B87,
            StandardCharacteristicId::EncryptedDataKeyMaterial => 0x2B88,
            StandardCharacteristicId::ApparentEnergy32 => 0x2B89,
            StandardCharacteristicId::ApparentPower => 0x2B8A,
            StandardCharacteristicId::LiveHealthObservations => 0x2B8B,
            StandardCharacteristicId::COtextsubscript2Concentration => 0x2B8C,
            StandardCharacteristicId::CosineoftheAngle => 0x2B8D,
            StandardCharacteristicId::DeviceTimeFeature => 0x2B8E,
            StandardCharacteristicId::DeviceTimeParameters => 0x2B8F,
            StandardCharacteristicId::DeviceTime => 0x2B90,
            StandardCharacteristicId::DeviceTimeControlPoint => 0x2B91,
            StandardCharacteristicId::TimeChangeLogData => 0x2B92,
            StandardCharacteristicId::MediaPlayerName => 0x2B93,
            StandardCharacteristicId::MediaPlayerIconObjectID => 0x2B94,
            StandardCharacteristicId::MediaPlayerIconURL => 0x2B95,
            StandardCharacteristicId::TrackChanged => 0x2B96,
            StandardCharacteristicId::TrackTitle => 0x2B97,
            StandardCharacteristicId::TrackDuration => 0x2B98,
            StandardCharacteristicId::TrackPosition => 0x2B99,
            StandardCharacteristicId::PlaybackSpeed => 0x2B9A,
            StandardCharacteristicId::SeekingSpeed => 0x2B9B,
            StandardCharacteristicId::CurrentTrackSegmentsObjectID => 0x2B9C,
            StandardCharacteristicId::CurrentTrackObjectID => 0x2B9D,
            StandardCharacteristicId::NextTrackObjectID => 0x2B9E,
            StandardCharacteristicId::ParentGroupObjectID => 0x2B9F,
            StandardCharacteristicId::CurrentGroupObjectID => 0x2BA0,
            StandardCharacteristicId::PlayingOrder => 0x2BA1,
            StandardCharacteristicId::PlayingOrdersSupported => 0x2BA2,
            StandardCharacteristicId::MediaState => 0x2BA3,
            StandardCharacteristicId::MediaControlPoint => 0x2BA4,
            StandardCharacteristicId::MediaControlPointOpcodesSupported => 0x2BA5,
            StandardCharacteristicId::SearchResultsObjectID => 0x2BA6,
            StandardCharacteristicId::SearchControlPoint => 0x2BA7,
            StandardCharacteristicId::Energy32 => 0x2BA8,
            StandardCharacteristicId::ConstantToneExtensionEnable => 0x2BAD,
            StandardCharacteristicId::AdvertisingConstantToneExtensionMinimumLength => 0x2BAE,
            StandardCharacteristicId::AdvertisingConstantToneExtensionMinimumTransmitCount => 0x2BAF,
            StandardCharacteristicId::AdvertisingConstantToneExtensionTransmitDuration => 0x2BB0,
            StandardCharacteristicId::AdvertisingConstantToneExtensionInterval => 0x2BB1,
            StandardCharacteristicId::AdvertisingConstantToneExtensionPHY => 0x2BB2,
            StandardCharacteristicId::BearerProviderName => 0x2BB3,
            StandardCharacteristicId::BearerUCI => 0x2BB4,
            StandardCharacteristicId::BearerTechnology => 0x2BB5,
            StandardCharacteristicId::BearerURISchemesSupportedList => 0x2BB6,
            StandardCharacteristicId::BearerSignalStrength => 0x2BB7,
            StandardCharacteristicId::BearerSignalStrengthReportingInterval => 0x2BB8,
            StandardCharacteristicId::BearerListCurrentCalls => 0x2BB9,
            StandardCharacteristicId::ContentControlID => 0x2BBA,
            StandardCharacteristicId::StatusFlags => 0x2BBB,
            StandardCharacteristicId::IncomingCallTargetBearerURI => 0x2BBC,
            StandardCharacteristicId::CallState => 0x2BBD,
            StandardCharacteristicId::CallControlPoint => 0x2BBE,
            StandardCharacteristicId::CallControlPointOptionalOpcodes => 0x2BBF,
            StandardCharacteristicId::TerminationReason => 0x2BC0,
            StandardCharacteristicId::IncomingCall => 0x2BC1,
            StandardCharacteristicId::CallFriendlyName => 0x2BC2,
            StandardCharacteristicId::Mute => 0x2BC3,
            StandardCharacteristicId::SinkASE => 0x2BC4,
            StandardCharacteristicId::SourceASE => 0x2BC5,
            StandardCharacteristicId::ASEControlPoint => 0x2BC6,
            StandardCharacteristicId::BroadcastAudioScanControlPoint => 0x2BC7,
            StandardCharacteristicId::BroadcastReceiveState => 0x2BC8,
            StandardCharacteristicId::SinkPAC => 0x2BC9,
            StandardCharacteristicId::SinkAudioLocations => 0x2BCA,
            StandardCharacteristicId::SourcePAC => 0x2BCB,
            StandardCharacteristicId::SourceAudioLocations => 0x2BCC,
            StandardCharacteristicId::AvailableAudioContexts => 0x2BCD,
            StandardCharacteristicId::SupportedAudioContexts => 0x2BCE,
            StandardCharacteristicId::AmmoniaConcentration => 0x2BCF,
            StandardCharacteristicId::CarbonMonoxideConcentration => 0x2BD0,
            StandardCharacteristicId::MethaneConcentration => 0x2BD1,
            StandardCharacteristicId::NitrogenDioxideConcentration => 0x2BD2,
            StandardCharacteristicId::NonMethaneVolatileOrganicCompoundsConcentration => 0x2BD3,
            StandardCharacteristicId::OzoneConcentration => 0x2BD4,
            StandardCharacteristicId::ParticulateMatterPM1Concentration => 0x2BD5,
            StandardCharacteristicId::ParticulateMatterPM25Concentration => 0x2BD6,
            StandardCharacteristicId::ParticulateMatterPM10Concentration => 0x2BD7,
            StandardCharacteristicId::SulfurDioxideConcentration => 0x2BD8,
            StandardCharacteristicId::SulfurHexafluorideConcentration => 0x2BD9,
            StandardCharacteristicId::HearingAidFeatures => 0x2BDA,
            StandardCharacteristicId::HearingAidPresetControlPoint => 0x2BDB,
            StandardCharacteristicId::ActivePresetIndex => 0x2BDC,
            StandardCharacteristicId::StoredHealthObservations => 0x2BDD,
            StandardCharacteristicId::FixedString64 => 0x2BDE,
            StandardCharacteristicId::HighTemperature => 0x2BDF,
            StandardCharacteristicId::HighVoltage => 0x2BE0,
            StandardCharacteristicId::LightDistribution => 0x2BE1,
            StandardCharacteristicId::LightOutput => 0x2BE2,
            StandardCharacteristicId::LightSourceType => 0x2BE3,
            StandardCharacteristicId::Noise => 0x2BE4,
            StandardCharacteristicId::RelativeRuntimeinaCorrelatedColorTemperatureRange => 0x2BE5,
            StandardCharacteristicId::TimeSecond32 => 0x2BE6,
            StandardCharacteristicId::VOCConcentration => 0x2BE7,
            StandardCharacteristicId::VoltageFrequency => 0x2BE8,
            StandardCharacteristicId::BatteryCriticalStatus => 0x2BE9,
            StandardCharacteristicId::BatteryHealthStatus => 0x2BEA,
            StandardCharacteristicId::BatteryHealthInformation => 0x2BEB,
            StandardCharacteristicId::BatteryInformation => 0x2BEC,
            StandardCharacteristicId::BatteryLevelStatus => 0x2BED,
            StandardCharacteristicId::BatteryTimeStatus => 0x2BEE,
            StandardCharacteristicId::EstimatedServiceDate => 0x2BEF,
            StandardCharacteristicId::BatteryEnergyStatus => 0x2BF0,
            StandardCharacteristicId::ObservationScheduleChanged => 0x2BF1,
            StandardCharacteristicId::CurrentElapsedTime => 0x2BF2,
            StandardCharacteristicId::HealthSensorFeatures => 0x2BF3,
            StandardCharacteristicId::GHSControlPoint => 0x2BF4,
            StandardCharacteristicId::LEGATTSecurityLevels => 0x2BF5,
            StandardCharacteristicId::ESLAddress => 0x2BF6,
            StandardCharacteristicId::APSyncKeyMaterial => 0x2BF7,
            StandardCharacteristicId::ESLResponseKeyMaterial => 0x2BF8,
            StandardCharacteristicId::ESLCurrentAbsoluteTime => 0x2BF9,
            StandardCharacteristicId::ESLDisplayInformation => 0x2BFA,
            StandardCharacteristicId::ESLImageInformation => 0x2BFB,
            StandardCharacteristicId::ESLSensorInformation => 0x2BFC,
            StandardCharacteristicId::ESLLEDInformation => 0x2BFD,
            StandardCharacteristicId::ESLControlPoint => 0x2BFE,
            StandardCharacteristicId::UDIforMedicalDevices => 0x2BFF,
            StandardCharacteristicId::GMAPRole => 0x2C00,
            StandardCharacteristicId::UGGFeatures => 0x2C01,
            StandardCharacteristicId::UGTFeatures => 0x2C02,
            StandardCharacteristicId::BGSFeatures => 0x2C03,
            StandardCharacteristicId::BGRFeatures => 0x2C04,
            StandardCharacteristicId::Percentage8Steps => 0x2C05,
        }
    }

    /// The 16-bit UUID assigned to this identifier.
    pub fn code(&self) -> (code: u16)
        ensures
            code == self.code_spec(),
    {
        match self {
            StandardCharacteristicId::DeviceName => 0x2A00,
            StandardCharacteristicId::Appearance => 0x2A01,
            StandardCharacteristicId::PeripheralPrivacyFlag => 0x2A02,
            StandardCharacteristicId::ReconnectionAddress => 0x2A03,
            StandardCharacteristicId::PeripheralPreferredConnectionParameters => 0x2A04,
            StandardCharacteristicId::ServiceChanged => 0x2A05,
            StandardCharacteristicId::AlertLevel => 0x2A06,
            StandardCharacteristicId::TxPowerLevel => 0x2A07,
            StandardCharacteristicId::DateTime => 0x2A08,
            StandardCharacteristicId::DayofWeek => 0x2A09,
            StandardCharacteristicId::DayDateTime => 0x2A0A,
            StandardCharacteristicId::ExactTime256 => 0x2A0C,
            StandardCharacteristicId::DSTOffset => 0x2A0D,
            StandardCharacteristicId::TimeZone => 0x2A0E,
            StandardCharacteristicId::LocalTimeInformation => 0x2A0F,
            StandardCharacteristicId::TimewithDST => 0x2A11,
            StandardCharacteristicId::TimeAccuracy => 0x2A12,
            StandardCharacteristicId::TimeSource => 0x2A13,
            StandardCharacteristicId::ReferenceTimeInformation => 0x2A14,
            StandardCharacteristicId::TimeUpdateControlPoint => 0x2A16,
            StandardCharacteristicId::TimeUpdateState => 0x2A17,
            StandardCharacteristicId::GlucoseMeasurement => 0x2A18,
            StandardCharacteristicId::BatteryLevel => 0x2A19,
            StandardCharacteristicId::TemperatureMeasurement => 0x2A1C,
            StandardCharacteristicId::TemperatureType => 0x2A1D,
            StandardCharacteristicId::IntermediateTemperature => 0x2A1E,
            StandardCharacteristicId::MeasurementInterval => 0x2A21,
            StandardCharacteristicId::BootKeyboardInputReport => 0x2A22,
            StandardCharacteristicId::SystemID => 0x2A23,
            StandardCharacteristicId::ModelNumberString => 0x2A24,
            StandardCharacteristicId::SerialNumberString => 0x2A25,
            StandardCharacteristicId::FirmwareRevisionString => 0x2A26,
            StandardCharacteristicId::HardwareRevisionString => 0x2A27,
            StandardCharacteristicId::SoftwareRevisionString => 0x2A28,
            StandardCharacteristicId::ManufacturerNameString => 0x2A29,
            StandardCharacteristicId::IEEE1107320601RegulatoryCertificationDataList => 0x2A2A,
            StandardCharacteristicId::CurrentTime => 0x2A2B,
            StandardCharacteristicId::MagneticDeclination => 0x2A2C,
            StandardCharacteristicId::ScanRefresh => 0x2A31,
            StandardCharacteristicId::BootKeyboardOutputReport => 0x2A32,
            StandardCharacteristicId::BootMouseInputReport => 0x2A33,
            StandardCharacteristicId::GlucoseMeasurementContext => 0x2A34,
            StandardCharacteristicId::BloodPressureMeasurement => 0x2A35,
            StandardCharacteristicId::IntermediateCuffPressure => 0x2A36,
            StandardCharacteristicId::HeartRateMeasurement => 0x2A37,
            StandardCharacteristicId::BodySensorLocation => 0x2A38,
            StandardCharacteristicId::HeartRateControlPoint => 0x2A39,
            StandardCharacteristicId::AlertStatus => 0x2A3F,
            StandardCharacteristicId::RingerControlPoint => 0x2A40,
            StandardCharacteristicId::RingerSetting => 0x2A41,
            StandardCharacteristicId::AlertCategoryIDBitMask => 0x2A42,
            StandardCharacteristicId::AlertCategoryID => 0x2A43,
            StandardCharacteristicId::AlertNotificationControlPoint => 0x2A44,
            StandardCharacteristicId::UnreadAlertStatus => 0x2A45,
            StandardCharacteristicId::NewAlert => 0x2A46,
            StandardCharacteristicId::SupportedNewAlertCategory => 0x2A47,
            StandardCharacteristicId::SupportedUnreadAlertCategory => 0x2A48,
            StandardCharacteristicId::BloodPressureFeature => 0x2A49,
            StandardCharacteristicId::HIDInformation => 0x2A4A,
            StandardCharacteristicId::ReportMap => 0x2A4B,
            StandardCharacteristicId::HIDControlPoint => 0x2A4C,
            StandardCharacteristicId::Report => 0x2A4D,
            StandardCharacteristicId::ProtocolMode => 0x2A4E,
            StandardCharacteristicId::ScanIntervalWindow => 0x2A4F,
            StandardCharacteristicId::PnPID => 0x2A50,
            StandardCharacteristicId::GlucoseFeature => 0x2A51,
            StandardCharacteristicId::RecordAccessControlPoint => 0x2A52,
            StandardCharacteristicId::RSCMeasurement => 0x2A53,
            StandardCharacteristicId::RSCFeature => 0x2A54,
            StandardCharacteristicId::SCControlPoint => 0x2A55,
            StandardCharacteristicId::Aggregate => 0x2A5A,
            StandardCharacteristicId::CSCMeasurement => 0x2A5B,
            StandardCharacteristicId::CSCFeature => 0x2A5C,
            StandardCharacteristicId::SensorLocation => 0x2A5D,
            StandardCharacteristicId::PLXSpotCheckMeasurement => 0x2A5E,
            StandardCharacteristicId::PLXContinuousMeasurement => 0x2A5F,
            StandardCharacteristicId::PLXFeatures => 0x2A60,
            StandardCharacteristicId::CyclingPowerMeasurement => 0x2A63,
            StandardCharacteristicId::CyclingPowerVector => 0x2A64,
            StandardCharacteristicId::CyclingPowerFeature => 0x2A65,
            StandardCharacteristicId::CyclingPowerControlPoint => 0x2A66,
            StandardCharacteristicId::LocationandSpeed => 0x2A67,
            StandardCharacteristicId::Navigation => 0x2A68,
            StandardCharacteristicId::PositionQuality => 0x2A69,
            StandardCharacteristicId::LNFeature => 0x2A6A,
            StandardCharacteristicId::LNControlPoint => 0x2A6B,
            StandardCharacteristicId::Elevation => 0x2A6C,
            StandardCharacteristicId::Pressure => 0x2A6D,
            StandardCharacteristicId::Temperature => 0x2A6E,
            StandardCharacteristicId::Humidity => 0x2A6F,
            StandardCharacteristicId::TrueWindSpeed => 0x2A70,
            StandardCharacteristicId::TrueWindDirection => 0x2A71,
            StandardCharacteristicId::ApparentWindSpeed => 0x2A72,
            StandardCharacteristicId::ApparentWindDirection => 0x2A73,
            StandardCharacteristicId::GustFactor => 0x2A74,
            StandardCharacteristicId::PollenConcentration => 0x2A75,
            StandardCharacteristicId::UVIndex => 0x2A76,
            StandardCharacteristicId::Irradiance => 0x2A77,
            StandardCharacteristicId::Rainfall => 0x2A78,
            StandardCharacteristicId::WindChill => 0x2A79,
            StandardCharacteristicId::HeatIndex => 0x2A7A,
            StandardCharacteristicId::DewPoint => 0x2A7B,
            StandardCharacteristicId::DescriptorValueChanged => 0x2A7D,
            StandardCharacteristicId::AerobicHeartRateLowerLimit => 0x2A7E,
            StandardCharacteristicId::AerobicThreshold => 0x2A7F,
            StandardCharacteristicId::Age => 0x2A80,
            StandardCharacteristicId::AnaerobicHeartRateLowerLimit => 0x2A81,
            StandardCharacteristicId::AnaerobicHeartRateUpperLimit => 0x2A82,
            StandardCharacteristicId::AnaerobicThreshold => 0x2A83,
            StandardCharacteristicId::AerobicHeartRateUpperLimit => 0x2A84,
            StandardCharacteristicId::DateofBirth => 0x2A85,
            StandardCharacteristicId::DateofThresholdAssessment => 0x2A86,
            StandardCharacteristicId::EmailAddress => 0x2A87,
            StandardCharacteristicId::FatBurnHeartRateLowerLimit => 0x2A88,
            StandardCharacteristicId::FatBurnHeartRateUpperLimit => 0x2A89,
            StandardCharacteristicId::FirstName => 0x2A8A,
            StandardCharacteristicId::FiveZoneHeartRateLimits => 0x2A8B,
            StandardCharacteristicId::Gender => 0x2A8C,
            StandardCharacteristicId::HeartRateMax => 0x2A8D,
            StandardCharacteristicId::Height => 0x2A8E,
            StandardCharacteristicId::HipCircumference => 0x2A8F,
            StandardCharacteristicId::LastName => 0x2A90,
            StandardCharacteristicId::MaximumRecommendedHeartRate => 0x2A91,
            StandardCharacteristicId::RestingHeartRate => 0x2A92,
            StandardCharacteristicId::SportTypeforAerobicandAnaerobicThresholds => 0x2A93,
            StandardCharacteristicId::ThreeZoneHeartRateLimits => 0x2A94,
            StandardCharacteristicId::TwoZoneHeartRateLimits => 0x2A95,
            StandardCharacteristicId::VO2Max => 0x2A96,
            StandardCharacteristicId::WaistCircumference => 0x2A97,
            StandardCharacteristicId::Weight => 0x2A98,
            StandardCharacteristicId::DatabaseChangeIncrement => 0x2A99,
            StandardCharacteristicId::UserIndex => 0x2A9A,
            StandardCharacteristicId::BodyCompositionFeature => 0x2A9B,
            StandardCharacteristicId::BodyCompositionMeasurement => 0x2A9C,
            StandardCharacteristicId::WeightMeasurement => 0x2A9D,
            StandardCharacteristicId::WeightScaleFeature => 0x2A9E,
            StandardCharacteristicId::UserControlPoint => 0x2A9F,
            StandardCharacteristicId::MagneticFluxDensity2D => 0x2AA0,
            StandardCharacteristicId::MagneticFluxDensity3D => 0x2AA1,
            StandardCharacteristicId::Language => 0x2AA2,
            StandardCharacteristicId::BarometricPressureTrend => 0x2AA3,
            StandardCharacteristicId::BondManagementControlPoint => 0x2AA4,
            StandardCharacteristicId::BondManagementFeature => 0x2AA5,
            StandardCharacteristicId::CentralAddressResolution => 0x2AA6,
            StandardCharacteristicId::CGMMeasurement => 0x2AA7,
            StandardCharacteristicId::CGMFeature => 0x2AA8,
            StandardCharacteristicId::CGMStatus => 0x2AA9,
            StandardCharacteristicId::CGMSessionStartTime => 0x2AAA,
            StandardCharacteristicId::CGMSessionRunTime => 0x2AAB,
            StandardCharacteristicId::CGMSpecificOpsControlPoint => 0x2AAC,
            StandardCharacteristicId::IndoorPositioningConfiguration => 0x2AAD,
            StandardCharacteristicId::Latitude => 0x2AAE,
            StandardCharacteristicId::Longitude => 0x2AAF,
            StandardCharacteristicId::LocalNorthCoordinate => 0x2AB0,
            StandardCharacteristicId::LocalEastCoordinate => 0x2AB1,
            StandardCharacteristicId::FloorNumber => 0x2AB2,
            StandardCharacteristicId::Altitude => 0x2AB3,
            StandardCharacteristicId::Uncertainty => 0x2AB4,
            StandardCharacteristicId::LocationName => 0x2AB5,
            StandardCharacteristicId::URI => 0x2AB6,
            StandardCharacteristicId::HTTPHeaders => 0x2AB7,
            StandardCharacteristicId::HTTPStatusCode => 0x2AB8,
            StandardCharacteristicId::HTTPEntityBody => 0x2AB9,
            StandardCharacteristicId::HTTPControlPoint => 0x2ABA,
            StandardCharacteristicId::HTTPSSecurity => 0x2ABB,
            StandardCharacteristicId::TDSControlPoint => 0x2ABC,
            StandardCharacteristicId::OTSFeature => 0x2ABD,
            StandardCharacteristicId::ObjectName => 0x2ABE,
            StandardCharacteristicId::ObjectType => 0x2ABF,
            StandardCharacteristicId::ObjectSize => 0x2AC0,
            StandardCharacteristicId::ObjectFirstCreated => 0x2AC1,
            StandardCharacteristicId::ObjectLastModified => 0x2AC2,
            StandardCharacteristicId::ObjectID => 0x2AC3,
            StandardCharacteristicId::ObjectProperties => 0x2AC4,
            StandardCharacteristicId::ObjectActionControlPoint => 0x2AC5,
            StandardCharacteristicId::ObjectListControlPoint => 0x2AC6,
            StandardCharacteristicId::ObjectListFilter => 0x2AC7,
            StandardCharacteristicId::ObjectChanged => 0x2AC8,
            StandardCharacteristicId::ResolvablePrivateAddressOnly => 0x2AC9,
            StandardCharacteristicId::FitnessMachineFeature => 0x2ACC,
            StandardCharacteristicId::TreadmillData => 0x2ACD,
            StandardCharacteristicId::CrossTrainerData => 0x2ACE,
            StandardCharacteristicId::StepClimberData => 0x2ACF,
            StandardCharacteristicId::StairClimberData => 0x2AD0,
            StandardCharacteristicId::RowerData => 0x2AD1,
            StandardCharacteristicId::IndoorBikeData => 0x2AD2,
            StandardCharacteristicId::TrainingStatus => 0x2AD3,
            StandardCharacteristicId::SupportedSpeedRange => 0x2AD4,
            StandardCharacteristicId::SupportedInclinationRange => 0x2AD5,
            StandardCharacteristicId::SupportedResistanceLevelRange => 0x2AD6,
            StandardCharacteristicId::SupportedHeartRateRange => 0x2AD7,
            StandardCharacteristicId::SupportedPowerRange => 0x2AD8,
            StandardCharacteristicId::FitnessMachineControlPoint => 0x2AD9,
            StandardCharacteristicId::FitnessMachineStatus => 0x2ADA,
            StandardCharacteristicId::MeshProvisioningDataIn => 0x2ADB,
            StandardCharacteristicId::MeshProvisioningDataOut => 0x2ADC,
            StandardCharacteristicId::MeshProxyDataIn => 0x2ADD,
            StandardCharacteristicId::MeshProxyDataOut => 0x2ADE,
            StandardCharacteristicId::AverageCurrent => 0x2AE0,
            StandardCharacteristicId::AverageVoltage => 0x2AE1,
            StandardCharacteristicId::Boolean => 0x2AE2,
            StandardCharacteristicId::ChromaticDistancefromPlanckian => 0x2AE3,
            StandardCharacteristicId::ChromaticityCoordinates => 0x2AE4,
            StandardCharacteristicId::ChromaticityinCCTandDuvValues => 0x2AE5,
            StandardCharacteristicId::ChromaticityTolerance => 0x2AE6,
            StandardCharacteristicId::CIE1331995ColorRenderingIndex => 0x2AE7,
            StandardCharacteristicId::Coefficient => 0x2AE8,
            StandardCharacteristicId::CorrelatedColorTemperature => 0x2AE9,
            StandardCharacteristicId::Count16 => 0x2AEA,
            StandardCharacteristicId::Count24 => 0x2AEB,
            StandardCharacteristicId::CountryCode => 0x2AEC,
            StandardCharacteristicId::DateUTC => 0x2AED,
            StandardCharacteristicId::ElectricCurrent => 0x2AEE,
            StandardCharacteristicId::ElectricCurrentRange => 0x2AEF,
            StandardCharacteristicId::ElectricCurrentSpecification => 0x2AF0,
            StandardCharacteristicId::ElectricCurrentStatistics => 0x2AF1,
            StandardCharacteristicId::Energy => 0x2AF2,
            StandardCharacteristicId::EnergyinaPeriodofDay => 0x2AF3,
            StandardCharacteristicId::EventStatistics => 0x2AF4,
            StandardCharacteristicId::FixedString16 => 0x2AF5,
            StandardCharacteristicId::FixedString24 => 0x2AF6,
            StandardCharacteristicId::FixedString36 => 0x2AF7,
            StandardCharacteristicId::FixedString8 => 0x2AF8,
            StandardCharacteristicId::GenericLevel => 0x2AF9,
            StandardCharacteristicId::GlobalTradeItemNumber => 0x2AFA,
            StandardCharacteristicId::Illuminance => 0x2AFB,
            StandardCharacteristicId::LuminousEfficacy => 0x2AFC,
            StandardCharacteristicId::LuminousEnergy => 0x2AFD,
            StandardCharacteristicId::LuminousExposure => 0x2AFE,
            StandardCharacteristicId::LuminousFlux => 0x2AFF,
            StandardCharacteristicId::LuminousFluxRange => 0x2B00,
            StandardCharacteristicId::LuminousIntensity => 0x2B01,
            StandardCharacteristicId::MassFlow => 0x2B02,
            StandardCharacteristicId::PerceivedLightness => 0x2B03,
            StandardCharacteristicId::Percentage8 => 0x2B04,
            StandardCharacteristicId::Power => 0x2B05,
            StandardCharacteristicId::PowerSpecification => 0x2B06,
            StandardCharacteristicId::RelativeRuntimeinaCurrentRange => 0x2B07,
            StandardCharacteristicId::RelativeRuntimeinaGenericLevelRange => 0x2B08,
            StandardCharacteristicId::RelativeValueinaVoltageRange => 0x2B09,
            StandardCharacteristicId::RelativeValueinanIlluminanceRange => 0x2B0A,
            StandardCharacteristicId::RelativeValueinaPeriodofDay => 0x2B0B,
            StandardCharacteristicId::RelativeValueinaTemperatureRange => 0x2B0C,
            StandardCharacteristicId::Temperature8 => 0x2B0D,
            StandardCharacteristicId::Temperature8inaPeriodofDay => 0x2B0E,
            StandardCharacteristicId::Temperature8Statistics => 0x2B0F,
            StandardCharacteristicId::TemperatureRange => 0x2B10,
            StandardCharacteristicId::TemperatureStatistics => 0x2B11,
            StandardCharacteristicId::TimeDecihour8 => 0x2B12,
            StandardCharacteristicId::TimeExponential8 => 0x2B13,
            StandardCharacteristicId::TimeHour24 => 0x2B14,
            StandardCharacteristicId::TimeMillisecond24 => 0x2B15,
            StandardCharacteristicId::TimeSecond16 => 0x2B16,
            StandardCharacteristicId::TimeSecond8 => 0x2B17,
            StandardCharacteristicId::Voltage => 0x2B18,
            StandardCharacteristicId::VoltageSpecification => 0x2B19,
            StandardCharacteristicId::VoltageStatistics => 0x2B1A,
            StandardCharacteristicId::VolumeFlow => 0x2B1B,
            StandardCharacteristicId::ChromaticityCoordinate => 0x2B1C,
            StandardCharacteristicId::RCFeature => 0x2B1D,
            StandardCharacteristicId::RCSettings => 0x2B1E,
            StandardCharacteristicId::ReconnectionConfigurationControlPoint => 0x2B1F,
            StandardCharacteristicId::IDDStatusChanged => 0x2B20,
            StandardCharacteristicId::IDDStatus => 0x2B21,
            StandardCharacteristicId::IDDAnnunciationStatus => 0x2B22,
            StandardCharacteristicId::IDDFeatures => 0x2B23,
            StandardCharacteristicId::IDDStatusReaderControlPoint => 0x2B24,
            StandardCharacteristicId::IDDCommandControlPoint => 0x2B25,
            StandardCharacteristicId::IDDCommandData => 0x2B26,
            StandardCharacteristicId::IDDRecordAccessControlPoint => 0x2B27,
            StandardCharacteristicId::IDDHistoryData => 0x2B28,
            StandardCharacteristicId::ClientSupportedFeatures => 0x2B29,
            StandardCharacteristicId::DatabaseHash => 0x2B2A,
            StandardCharacteristicId::BSSControlPoint => 0x2B2B,
            StandardCharacteristicId::BSSResponse => 0x2B2C,
            StandardCharacteristicId::EmergencyID => 0x2B2D,
            StandardCharacteristicId::EmergencyText => 0x2B2E,
            StandardCharacteristicId::ACSStatus => 0x2B2F,
            StandardCharacteristicId::ACSDataIn => 0x2B30,
            StandardCharacteristicId::ACSDataOutNotify => 0x2B31,
            StandardCharacteristicId::ACSDataOutIndicate => 0x2B32,
            StandardCharacteristicId::ACSControlPoint => 0x2B33,
            StandardCharacteristicId::EnhancedBloodPressureMeasurement => 0x2B34,
            StandardCharacteristicId::EnhancedIntermediateCuffPressure => 0x2B35,
            StandardCharacteristicId::BloodPressureRecord => 0x2B36,
            StandardCharacteristicId::RegisteredUser => 0x2B37,
            StandardCharacteristicId::BREDRHandoverData => 0x2B38,
            StandardCharacteristicId::BluetoothSIGData => 0x2B39,
            StandardCharacteristicId::ServerSupportedFeatures => 0x2B3A,
            StandardCharacteristicId::PhysicalActivityMonitorFeatures => 0x2B3B,
            StandardCharacteristicId::GeneralActivityInstantaneousData => 0x2B3C,
            StandardCharacteristicId::GeneralActivitySummaryData => 0x2B3D,
            StandardCharacteristicId::CardioRespiratoryActivityInstantaneousData => 0x2B3E,
            StandardCharacteristicId::CardioRespiratoryActivitySummaryData => 0x2B3F,
            StandardCharacteristicId::StepCounterActivitySummaryData => 0x2B40,
            StandardCharacteristicId::SleepActivityInstantaneousData => 0x2B41,
            StandardCharacteristicId::SleepActivitySummaryData => 0x2B42,
            StandardCharacteristicId::PhysicalActivityMonitorControlPoint => 0x2B43,
            StandardCharacteristicId::PhysicalActivityCurrentSession => 0x2B44,
            StandardCharacteristicId::PhysicalActivitySessionDescriptor => 0x2B45,
            StandardCharacteristicId::PreferredUnits => 0x2B46,
            StandardCharacteristicId::HighResolutionHeight => 0x2B47,
            StandardCharacteristicId::MiddleName => 0x2B48,
            StandardCharacteristicId::StrideLength => 0x2B49,
            StandardCharacteristicId::Handedness => 0x2B4A,
            StandardCharacteristicId::DeviceWearingPosition => 0x2B4B,
            StandardCharacteristicId::FourZoneHeartRateLimits => 0x2B4C,
            StandardCharacteristicId::HighIntensityExerciseThreshold => 0x2B4D,
            StandardCharacteristicId::ActivityGoal => 0x2B4E,
            StandardCharacteristicId::SedentaryIntervalNotification => 0x2B4F,
            StandardCharacteristicId::CaloricIntake => 0x2B50,
            StandardCharacteristicId::TMAPRole => 0x2B51,
            StandardCharacteristicId::AudioInputState => 0x2B77,
            StandardCharacteristicId::GainSettingsAttribute => 0x2B78,
            StandardCharacteristicId::AudioInputType => 0x2B79,
            StandardCharacteristicId::AudioInputStatus => 0x2B7A,
            StandardCharacteristicId::AudioInputControlPoint => 0x2B7B,
            StandardCharacteristicId::AudioInputDescription => 0x2B7C,
            StandardCharacteristicId::VolumeState => 0x2B7D,
            StandardCharacteristicId::VolumeControlPoint => 0x2B7E,
            StandardCharacteristicId::VolumeFlags => 0x2B7F,
            StandardCharacteristicId::VolumeOffsetState => 0x2B80,
            StandardCharacteristicId::AudioLocation => 0x2B81,
            StandardCharacteristicId::VolumeOffsetControlPoint => 0x2B82,
            StandardCharacteristicId::AudioOutputDescription => 0x2B83,
            StandardCharacteristicId::SetIdentityResolvingKey => 0x2B84,
            StandardCharacteristicId::CoordinatedSetSize => 0x2B85,
            StandardCharacteristicId::SetMemberLock => 0x2B86,
            StandardCharacteristicId::SetMemberRank => 0x2B87,
            StandardCharacteristicId::EncryptedDataKeyMaterial => 0x2B88,
            StandardCharacteristicId::ApparentEnergy32 => 0x2B89,
            StandardCharacteristicId::ApparentPower => 0x2B8A,
            StandardCharacteristicId::LiveHealthObservations => 0x2B8B,
            StandardCharacteristicId::COtextsubscript2Concentration => 0x2B8C,
            StandardCharacteristicId::CosineoftheAngle => 0x2B8D,
            StandardCharacteristicId::DeviceTimeFeature => 0x2B8E,
            StandardCharacteristicId::DeviceTimeParameters => 0x2B8F,
            StandardCharacteristicId::DeviceTime => 0x2B90,
            StandardCharacteristicId::DeviceTimeControlPoint => 0x2B91,
            StandardCharacteristicId::TimeChangeLogData => 0x2B92,
            StandardCharacteristicId::MediaPlayerName => 0x2B93,
            StandardCharacteristicId::MediaPlayerIconObjectID => 0x2B94,
            StandardCharacteristicId::MediaPlayerIconURL => 0x2B95,
            StandardCharacteristicId::TrackChanged => 0x2B96,
            StandardCharacteristicId::TrackTitle => 0x2B97,
            StandardCharacteristicId::TrackDuration => 0x2B98,
            StandardCharacteristicId::TrackPosition => 0x2B99,
            StandardCharacteristicId::PlaybackSpeed => 0x2B9A,
            StandardCharacteristicId::SeekingSpeed => 0x2B9B,
            StandardCharacteristicId::CurrentTrackSegmentsObjectID => 0x2B9C,
            StandardCharacteristicId::CurrentTrackObjectID => 0x2B9D,
            StandardCharacteristicId::NextTrackObjectID => 0x2B9E,
            StandardCharacteristicId::ParentGroupObjectID => 0x2B9F,
            StandardCharacteristicId::CurrentGroupObjectID => 0x2BA0,
            StandardCharacteristicId::PlayingOrder => 0x2BA1,
            StandardCharacteristicId::PlayingOrdersSupported => 0x2BA2,
            StandardCharacteristicId::MediaState => 0x2BA3,
            StandardCharacteristicId::MediaControlPoint => 0x2BA4,
            StandardCharacteristicId::MediaControlPointOpcodesSupported => 0x2BA5,
            StandardCharacteristicId::SearchResultsObjectID => 0x2BA6,
            StandardCharacteristicId::SearchControlPoint => 0x2BA7,
            StandardCharacteristicId::Energy32 => 0x2BA8,
            StandardCharacteristicId::ConstantToneExtensionEnable => 0x2BAD,
            StandardCharacteristicId::AdvertisingConstantToneExtensionMinimumLength => 0x2BAE,
            StandardCharacteristicId::AdvertisingConstantToneExtensionMinimumTransmitCount => 0x2BAF,
            StandardCharacteristicId::AdvertisingConstantToneExtensionTransmitDuration => 0x2BB0,
            StandardCharacteristicId::AdvertisingConstantToneExtensionInterval => 0x2BB1,
            StandardCharacteristicId::AdvertisingConstantToneExtensionPHY => 0x2BB2,
            StandardCharacteristicId::BearerProviderName => 0x2BB3,
            StandardCharacteristicId::BearerUCI => 0x2BB4,
            StandardCharacteristicId::BearerTechnology => 0x2BB5,
            StandardCharacteristicId::BearerURISchemesSupportedList => 0x2BB6,
            StandardCharacteristicId::BearerSignalStrength => 0x2BB7,
            StandardCharacteristicId::BearerSignalStrengthReportingInterval => 0x2BB8,
            StandardCharacteristicId::BearerListCurrentCalls => 0x2BB9,
            StandardCharacteristicId::ContentControlID => 0x2BBA,
            StandardCharacteristicId::StatusFlags => 0x2BBB,
            StandardCharacteristicId::IncomingCallTargetBearerURI => 0x2BBC,
            StandardCharacteristicId::CallState => 0x2BBD,
            StandardCharacteristicId::CallControlPoint => 0x2BBE,
            StandardCharacteristicId::CallControlPointOptionalOpcodes => 0x2BBF,
            StandardCharacteristicId::TerminationReason => 0x2BC0,
            StandardCharacteristicId::IncomingCall => 0x2BC1,
            StandardCharacteristicId::CallFriendlyName => 0x2BC2,
            StandardCharacteristicId::Mute => 0x2BC3,
            StandardCharacteristicId::SinkASE => 0x2BC4,
            StandardCharacteristicId::SourceASE => 0x2BC5,
            StandardCharacteristicId::ASEControlPoint => 0x2BC6,
            StandardCharacteristicId::BroadcastAudioScanControlPoint => 0x2BC7,
            StandardCharacteristicId::BroadcastReceiveState => 0x2BC8,
            StandardCharacteristicId::SinkPAC => 0x2BC9,
            StandardCharacteristicId::SinkAudioLocations => 0x2BCA,
            StandardCharacteristicId::SourcePAC => 0x2BCB,
            StandardCharacteristicId::SourceAudioLocations => 0x2BCC,
            StandardCharacteristicId::AvailableAudioContexts => 0x2BCD,
            StandardCharacteristicId::SupportedAudioContexts => 0x2BCE,
            StandardCharacteristicId::AmmoniaConcentration => 0x2BCF,
            StandardCharacteristicId::CarbonMonoxideConcentration => 0x2BD0,
            StandardCharacteristicId::MethaneConcentration => 0x2BD1,
            StandardCharacteristicId::NitrogenDioxideConcentration => 0x2BD2,
            StandardCharacteristicId::NonMethaneVolatileOrganicCompoundsConcentration => 0x2BD3,
            StandardCharacteristicId::OzoneConcentration => 0x2BD4,
            StandardCharacteristicId::ParticulateMatterPM1Concentration => 0x2BD5,
            StandardCharacteristicId::ParticulateMatterPM25Concentration => 0x2BD6,
            StandardCharacteristicId::ParticulateMatterPM10Concentration => 0x2BD7,
            StandardCharacteristicId::SulfurDioxideConcentration => 0x2BD8,
            StandardCharacteristicId::SulfurHexafluorideConcentration => 0x2BD9,
            StandardCharacteristicId::HearingAidFeatures => 0x2BDA,
            StandardCharacteristicId::HearingAidPresetControlPoint => 0x2BDB,
            StandardCharacteristicId::ActivePresetIndex => 0x2BDC,
            StandardCharacteristicId::StoredHealthObservations => 0x2BDD,
            StandardCharacteristicId::FixedString64 => 0x2BDE,
            StandardCharacteristicId::HighTemperature => 0x2BDF,
            StandardCharacteristicId::HighVoltage => 0x2BE0,
            StandardCharacteristicId::LightDistribution => 0x2BE1,
            StandardCharacteristicId::LightOutput => 0x2BE2,
            StandardCharacteristicId::LightSourceType => 0x2BE3,
            StandardCharacteristicId::Noise => 0x2BE4,
            StandardCharacteristicId::RelativeRuntimeinaCorrelatedColorTemperatureRange => 0x2BE5,
            StandardCharacteristicId::TimeSecond32 => 0x2BE6,
            StandardCharacteristicId::VOCConcentration => 0x2BE7,
            StandardCharacteristicId::VoltageFrequency => 0x2BE8,
            StandardCharacteristicId::BatteryCriticalStatus => 0x2BE9,
            StandardCharacteristicId::BatteryHealthStatus => 0x2BEA,
            StandardCharacteristicId::BatteryHealthInformation => 0x2BEB,
            StandardCharacteristicId::BatteryInformation => 0x2BEC,
            StandardCharacteristicId::BatteryLevelStatus => 0x2BED,
            StandardCharacteristicId::BatteryTimeStatus => 0x2BEE,
            StandardCharacteristicId::EstimatedServiceDate => 0x2BEF,
            StandardCharacteristicId::BatteryEnergyStatus => 0x2BF0,
            StandardCharacteristicId::ObservationScheduleChanged => 0x2BF1,
            StandardCharacteristicId::CurrentElapsedTime => 0x2BF2,
            StandardCharacteristicId::HealthSensorFeatures => 0x2BF3,
            StandardCharacteristicId::GHSControlPoint => 0x2BF4,
            StandardCharacteristicId::LEGATTSecurityLevels => 0x2BF5,
            StandardCharacteristicId::ESLAddress => 0x2BF6,
            StandardCharacteristicId::APSyncKeyMaterial => 0x2BF7,
            StandardCharacteristicId::ESLResponseKeyMaterial => 0x2BF8,
            StandardCharacteristicId::ESLCurrentAbsoluteTime => 0x2BF9,
            StandardCharacteristicId::ESLDisplayInformation => 0x2BFA,
            StandardCharacteristicId::ESLImageInformation => 0x2BFB,
            StandardCharacteristicId::ESLSensorInformation => 0x2BFC,
            StandardCharacteristicId::ESLLEDInformation => 0x2BFD,
            StandardCharacteristicId::ESLControlPoint => 0x2BFE,
            StandardCharacteristicId::UDIforMedicalDevices => 0x2BFF,
            StandardCharacteristicId::GMAPRole => 0x2C00,
            StandardCharacteristicId::UGGFeatures => 0x2C01,
            StandardCharacteristicId::UGTFeatures => 0x2C02,
            StandardCharacteristicId::BGSFeatures => 0x2C03,
            StandardCharacteristicId::BGRFeatures => 0x2C04,
            StandardCharacteristicId::Percentage8Steps => 0x2C05,
        }
    }

    /// How many bytes this identifier occupies in a payload.
    pub fn byte_size(&self) -> (size: usize)
        ensures
            size == 2,
    {
        2
    }
}

/// The identifiers of standard Bluetooth Low Energy descriptors, each assigned by the
/// Bluetooth Special Interest Group.
#[derive(Debug, Clone, Copy, PartialEq, Eq, Hash, Structural)]
pub enum StandardDescriptorId {
    CharacteristicExtendedProperties,
    CharacteristicUserDescription,
    ClientCharacteristicConfiguration,
    ServerCharacteristicConfiguration,
    CharacteristicPresentationFormat,
    CharacteristicAggregateFormat,
    ValidRange,
    ExternalReportReference,
    ReportReference,
    NumberofDigitals,
    ValueTriggerSetting,
    EnvironmentalSensingConfiguration,
    EnvironmentalSensingMeasurement,
    EnvironmentalSensingTriggerSetting,
    TimeTriggerSetting,
    CompleteBREDRTransportBlockData,
    ObservationSchedule,
    ValidRangeandAccuracy,
}

impl StandardDescriptorId {
    /// The 16-bit UUID assigned to this identifier.
    pub open spec fn code_spec(self) -> u16 {
        match self {
            StandardDescriptorId::CharacteristicExtendedProperties => 0x2900,
            StandardDescriptorId::CharacteristicUserDescription => 0x2901,
            StandardDescriptorId::ClientCharacteristicConfiguration => 0x2902,
            StandardDescriptorId::ServerCharacteristicConfiguration => 0x2903,
            StandardDescriptorId::CharacteristicPresentationFormat => 0x2904,
            StandardDescriptorId::CharacteristicAggregateFormat => 0x2905,
            StandardDescriptorId::ValidRange => 0x2906,
            StandardDescriptorId::ExternalReportReference => 0x2907,
            StandardDescriptorId::ReportReference => 0x2908,
            StandardDescriptorId::NumberofDigitals => 0x2909,
            StandardDescriptorId::ValueTriggerSetting => 0x290A,
            StandardDescriptorId::EnvironmentalSensingConfiguration => 0x290B,
            StandardDescriptorId::EnvironmentalSensingMeasurement => 0x290C,
            StandardDescriptorId::EnvironmentalSensingTriggerSetting => 0x290D,
            StandardDescriptorId::TimeTriggerSetting => 0x290E,
            StandardDescriptorId::CompleteBREDRTransportBlockData => 0x290F,
            StandardDescriptorId::ObservationSchedule => 0x2910,
            StandardDescriptorId::ValidRangeandAccuracy => 0x2911,
        }
    }

    /// The 16-bit UUID assigned to this identifier.
    pub fn code(&self) -> (code: u16)
        ensures
            code == self.code_spec(),
    {
        match self {
            StandardDescriptorId::CharacteristicExtendedProperties => 0x2900,
            StandardDescriptorId::CharacteristicUserDescription => 0x2901,
            StandardDescriptorId::ClientCharacteristicConfiguration => 0x2902,
            StandardDescriptorId::ServerCharacteristicConfiguration => 0x2903,
            StandardDescriptorId::CharacteristicPresentationFormat => 0x2904,
            StandardDescriptorId::CharacteristicAggregateFormat => 0x2905,
            StandardDescriptorId::ValidRange => 0x2906,
            StandardDescriptorId::ExternalReportReference => 0x2907,
            StandardDescriptorId::ReportReference => 0x2908,
            StandardDescriptorId::NumberofDigitals => 0x2909,
            StandardDescriptorId::ValueTriggerSetting => 0x290A,
            StandardDescriptorId::EnvironmentalSensingConfiguration => 0x290B,
            StandardDescriptorId::EnvironmentalSensingMeasurement => 0x290C,
            StandardDescriptorId::EnvironmentalSensingTriggerSetting => 0x290D,
            StandardDescriptorId::TimeTriggerSetting => 0x290E,
            StandardDescriptorId::CompleteBREDRTransportBlockData => 0x290F,
            StandardDescriptorId::ObservationSchedule => 0x2910,
            StandardDescriptorId::ValidRangeandAccuracy => 0x2911,
        }
    }

    /// How many bytes this identifier occupies in a payload.
    pub fn byte_size(&self) -> (size: usize)
        ensures
            size == 2,
    {
        2
    }
}

} // verus!
