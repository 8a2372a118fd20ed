//! Weather information: the current report, the forecasts, the warnings and
//! the tips, with the enumerations that they use.

pub mod current;
pub mod info;
pub mod local;
pub mod name;
pub mod nine_day;
pub mod psr;
pub mod tips;
pub mod warning;

pub use self::current::Current;
pub use self::info::Info;
pub use self::local::Local;
pub use self::name::Name;
pub use self::nine_day::NineDay;
pub use self::tips::Tips;
pub use self::psr::PSR;
pub use self::warning::Action;
pub use self::warning::Code;
pub use self::warning::Summary;
pub use self::warning::SummaryItem;
pub use self::warning::WarningStatementCode;
pub use self::warning::WarningSubtypeCode;
