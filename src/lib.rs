//! Export of gacha pull history: endpoint discovery, cursor pagination,
//! and normalization of per-title records into the UIGF v4 interchange form.

pub mod endpoint;
pub mod gacha_log;
pub mod gacha_url;
pub mod game;
pub mod hk4e;
pub mod hkrpg;
pub mod nap;
pub mod paging;
pub mod record;
pub mod response;
pub mod text;
pub mod uigf;

pub use game::{parse_game, Family, GachaType, GameType};
pub use record::{CollectError, GachaRecord, RecordError};
pub use response::{Response, ResponseData};
pub use uigf::{ExportTimestamp, Info, LanguageCode, Uid, UigfV4};
pub use endpoint::{filter_url, Endpoint};
pub use gacha_log::{get_uigf_with_gacha_log, merge_family_logs};
pub use gacha_url::{
    candidates_in_chunks, endpoint_candidates, find_game_data_path, get_latest_folder, probe_accepts,
    select_endpoint, DiscoveryError, DiscoveryStep, FolderEntry,
};
pub use paging::{ApiError, CategoryFetch, FetchStep};
