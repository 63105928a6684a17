use vstd::prelude::*;

verus! {

/// The streaming domain of the production environment.
pub const LS_WS_DOMAIN_PROD: &'static str = "wss://openapi.ls-sec.co.kr:9443";

/// The streaming domain of the paper-trading environment.
pub const LS_WS_DOMAIN_DEMO: &'static str = "wss://openapi.ls-sec.co.kr:29443";

/// The path of the streaming endpoint under either domain.
pub const LS_WS_ENDPOINT: &'static str = "/websocket";

/// The control code that registers an account feed.
pub const LS_WS_TR_TYPE_ACCOUNT_REGISTER: &'static str = "1";

/// The control code that releases an account feed.
pub const LS_WS_TR_TYPE_ACCOUNT_UNREGISTER: &'static str = "2";

/// The control code that registers a market-data stream.
pub const LS_WS_TR_TYPE_REGISTER: &'static str = "3";

/// The control code that releases a market-data stream.
pub const LS_WS_TR_TYPE_UNREGISTER: &'static str = "4";

/// Stream code: ETF order book.
pub const LS_WS_TR_CD_ETF_ORDERBOOK: &'static str = "B7_";

/// Stream code: KOSPI after hours order book.
pub const LS_WS_TR_CD_KOSPI_AFTER_HOURS_ORDERBOOK: &'static str = "DH1";

/// Stream code: KOSDAQ after hours order book.
pub const LS_WS_TR_CD_KOSDAQ_AFTER_HOURS_ORDERBOOK: &'static str = "DHA";

/// Stream code: KOSDAQ after hours execution.
pub const LS_WS_TR_CD_KOSDAQ_AFTER_HOURS_EXECUTION: &'static str = "DK3";

/// Stream code: KOSPI after hours execution.
pub const LS_WS_TR_CD_KOSPI_AFTER_HOURS_EXECUTION: &'static str = "DS3";

/// Stream code: after hours VI release.
pub const LS_WS_TR_CD_AFTER_HOURS_VI_RELEASE: &'static str = "DVI";

/// Stream code: KOSPI order book.
pub const LS_WS_TR_CD_KOSPI_ORDERBOOK: &'static str = "H1_";

/// Stream code: KOSPI before market order book.
pub const LS_WS_TR_CD_KOSPI_BEFORE_MARKET_ORDERBOOK: &'static str = "H2_";

/// Stream code: KOSDAQ order book.
pub const LS_WS_TR_CD_KOSDAQ_ORDERBOOK: &'static str = "HA_";

/// Stream code: KOSDAQ before market order book.
pub const LS_WS_TR_CD_KOSDAQ_BEFORE_MARKET_ORDERBOOK: &'static str = "HB_";

/// Stream code: KOSPI ETF NAV.
pub const LS_WS_TR_CD_KOSPI_ETF_NAV: &'static str = "I5_";

/// Stream code: index.
pub const LS_WS_TR_CD_INDEX: &'static str = "IJ_";

/// Stream code: KOSPI broker.
pub const LS_WS_TR_CD_KOSPI_BROKER: &'static str = "K1_";

/// Stream code: KOSDAQ execution.
pub const LS_WS_TR_CD_KOSDAQ_EXECUTION: &'static str = "K3_";

/// Stream code: KOSDAQ program trading stock.
pub const LS_WS_TR_CD_KOSDAQ_PROG_STOCK: &'static str = "KH_";

/// Stream code: KOSDAQ program trading total.
pub const LS_WS_TR_CD_KOSDAQ_PROG_TOTAL: &'static str = "KM_";

/// Stream code: KOSDAQ priority order book.
pub const LS_WS_TR_CD_KOSDAQ_PRIORITY_ORDERBOOK: &'static str = "KS_";

/// Stream code: KOSDAQ broker.
pub const LS_WS_TR_CD_KOSDAQ_BROKER: &'static str = "OK_";

/// Stream code: KOSPI program trading stock.
pub const LS_WS_TR_CD_KOSPI_PROG_STOCK: &'static str = "PH_";

/// Stream code: KOSPI program trading total.
pub const LS_WS_TR_CD_KOSPI_PROG_TOTAL: &'static str = "PM_";

/// Stream code: KOSPI priority order book.
pub const LS_WS_TR_CD_KOSPI_PRIORITY_ORDERBOOK: &'static str = "S2_";

/// Stream code: KOSPI execution.
pub const LS_WS_TR_CD_KOSPI_EXECUTION: &'static str = "S3_";

/// Stream code: KOSPI trend.
pub const LS_WS_TR_CD_KOSPI_TREND: &'static str = "S4_";

/// Stream code: order receive.
pub const LS_WS_TR_CD_ORDER_RECEIVE: &'static str = "SC0";

/// Stream code: order execution.
pub const LS_WS_TR_CD_ORDER_EXECUTION: &'static str = "SC1";

/// Stream code: order modify.
pub const LS_WS_TR_CD_ORDER_MODIFY: &'static str = "SC2";

/// Stream code: order cancel.
pub const LS_WS_TR_CD_ORDER_CANCEL: &'static str = "SC3";

/// Stream code: order reject.
pub const LS_WS_TR_CD_ORDER_REJECT: &'static str = "SC4";

/// Stream code: limit near enter.
pub const LS_WS_TR_CD_LIMIT_NEAR_ENTER: &'static str = "SHC";

/// Stream code: limit near leave.
pub const LS_WS_TR_CD_LIMIT_NEAR_LEAVE: &'static str = "SHD";

/// Stream code: limit enter.
pub const LS_WS_TR_CD_LIMIT_ENTER: &'static str = "SHI";

/// Stream code: limit leave.
pub const LS_WS_TR_CD_LIMIT_LEAVE: &'static str = "SHO";

/// Stream code: VI release.
pub const LS_WS_TR_CD_VI_RELEASE: &'static str = "VI_";

/// Stream code: expected index.
pub const LS_WS_TR_CD_EXPECTED_INDEX: &'static str = "YJ_";

/// Stream code: KOSDAQ expected execution.
pub const LS_WS_TR_CD_KOSDAQ_EXPECTED_EXECUTION: &'static str = "YK3";

/// Stream code: KOSPI expected execution.
pub const LS_WS_TR_CD_KOSPI_EXPECTED_EXECUTION: &'static str = "YS3";

/// Stream code: new ELW sensitivity.
pub const LS_WS_TR_CD_NEW_ELW_SENSITIVITY: &'static str = "ESN";

/// Stream code: ELW before market order book.
pub const LS_WS_TR_CD_ELW_BEFORE_MARKET_ORDERBOOK: &'static str = "h2_";

/// Stream code: ELW order book.
pub const LS_WS_TR_CD_ELW_ORDERBOOK: &'static str = "h3_";

/// Stream code: ELW broker.
pub const LS_WS_TR_CD_ELW_BROKER: &'static str = "k1_";

/// Stream code: ELW priority order book.
pub const LS_WS_TR_CD_ELW_PRIORITY_ORDERBOOK: &'static str = "s2_";

/// Stream code: ELW execution.
pub const LS_WS_TR_CD_ELW_EXECUTION: &'static str = "s3_";

/// Stream code: ELW trend.
pub const LS_WS_TR_CD_ELW_TREND: &'static str = "s4_";

/// Stream code: ELW expected execution.
pub const LS_WS_TR_CD_ELW_EXPECTED_EXECUTION: &'static str = "Ys3";

/// Stream code: NXT execution.
pub const LS_WS_TR_CD_NXT_EXECUTION: &'static str = "NS3";

/// Stream code: NXT order book.
pub const LS_WS_TR_CD_NXT_ORDERBOOK: &'static str = "NH1";

/// Stream code: NXT priority order book.
pub const LS_WS_TR_CD_NXT_PRIORITY_ORDERBOOK: &'static str = "NS2";

/// Stream code: NXT expected execution.
pub const LS_WS_TR_CD_NXT_EXPECTED_EXECUTION: &'static str = "NYS";

/// Stream code: NXT VI release.
pub const LS_WS_TR_CD_NXT_VI_RELEASE: &'static str = "NVI";

/// Stream code: NXT broker.
pub const LS_WS_TR_CD_NXT_BROKER: &'static str = "NK1";

/// Stream code: NXT program trading stock.
pub const LS_WS_TR_CD_NXT_PROG_STOCK: &'static str = "NPH";

/// Stream code: NXT program trading total.
pub const LS_WS_TR_CD_NXT_PROG_TOTAL: &'static str = "NPM";

/// Stream code: NXT investor trend.
pub const LS_WS_TR_CD_NXT_INVESTOR_TREND: &'static str = "NBT";

/// Stream code: NXT sector investor status.
pub const LS_WS_TR_CD_NXT_SECTOR_INVESTOR_STATUS: &'static str = "NBM";

/// Stream code: unified execution.
pub const LS_WS_TR_CD_UNI_EXECUTION: &'static str = "US3";

/// Stream code: unified order book.
pub const LS_WS_TR_CD_UNI_ORDERBOOK: &'static str = "UH1";

/// Stream code: unified priority order book.
pub const LS_WS_TR_CD_UNI_PRIORITY_ORDERBOOK: &'static str = "US2";

/// Stream code: unified expected execution.
pub const LS_WS_TR_CD_UNI_EXPECTED_EXECUTION: &'static str = "UYS";

/// Stream code: unified program trading stock.
pub const LS_WS_TR_CD_UNI_PROG_STOCK: &'static str = "UPH";

/// Stream code: unified broker.
pub const LS_WS_TR_CD_UNI_BROKER: &'static str = "UK1";

/// Stream code: unified investor trend.
pub const LS_WS_TR_CD_UNI_INVESTOR_TREND: &'static str = "UBT";

/// Stream code: unified sector investor status.
pub const LS_WS_TR_CD_UNI_SECTOR_INVESTOR_STATUS: &'static str = "UBM";

/// Stream code: unified program trading total.
pub const LS_WS_TR_CD_UNI_PROG_TOTAL: &'static str = "UPM";

/// Stream code: unified VI release.
pub const LS_WS_TR_CD_UNI_VI_RELEASE: &'static str = "UVI";

/// Stream code: user condition search.
pub const LS_WS_TR_CD_USER_CONDITION_SEARCH: &'static str = "AFR";

} // verus!
