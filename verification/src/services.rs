//! The engines that turn approved facts into figures and recommendations.

pub mod ai;
pub mod deal_agent;
pub mod underwriting;
