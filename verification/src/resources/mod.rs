//! The data model of the SumUp API resources and the per-resource clients.
pub mod checkouts;
pub mod common;
pub mod customers;
pub mod members;
pub mod memberships;
pub mod merchant;
pub mod merchants;
pub mod payouts;
pub mod readers;
pub mod receipts;
pub mod roles;
pub mod subaccounts;
pub mod transactions;
