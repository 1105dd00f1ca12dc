pub mod http;
pub mod job;
pub mod manager;
pub mod model;
pub mod part;

pub use http::{
    validate_resume_metadata, ByteRange, ContentRange, HttpMetadata, HttpProbeError, HttpRequest,
    HttpResponse, ProbeRequest, ResumeValidation,
};
pub use job::{HttpDownloadJobConfig, HttpDownloadJobError, HttpDownloadJobResult};
pub use manager::{
    DownloadEvent, DownloadManagerError, DownloadManagerOptions, DownloadManagerResult,
    NewDownload, DEFAULT_COMMAND_BUFFER, DEFAULT_EVENT_BUFFER,
};
pub use model::{
    Bytes, BytesPerSecond, DownloadConfig, DownloadFailure, DownloadId, DownloadItem,
    DownloadKind, DownloadPart, DownloadProgress, DownloadStatus, FailureKind, NonZeroU16,
    NonZeroU32, ParseDomainEnumError, PartId, PartStatus, QueueId, ResumeSupport,
};
pub use part::{split_fixed_ranges, split_fixed_ranges_with_min_part_size, RangeSplitError};
