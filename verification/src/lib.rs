//! The decisions of Bakoel's super admin server, verified.
//!
//! A request starts with one of the functions [`login::login`],
//! [`tenants::get_all_tenant_balances`], [`tenants::get_tenant_detail`],
//! [`tenants::update_tenant_kyc`], [`withdrawals::get_all_withdrawals`] and
//! [`withdrawals::approve_withdrawal`]. Each gives the first step: a reply, or something to ask
//! of the world, such as a permit or the rows of a query. With the answer, [`server::resume`]
//! gives the next step, until there is a reply. What holds of all this stands in [`laws`].
pub mod clock;
pub mod database;
pub mod flow;
pub mod headers;
pub mod laws;
pub mod login;
pub mod password;
pub mod reply;
pub mod server;
pub mod session;
pub mod tenants;
pub mod text;
pub mod withdrawals;
