//! Verified core of a terminal front end for the MarketMaker 2 daemon:
//! configuration records, coin selection, order book sorting, and the
//! decisions of the controller and of the user interface.

pub mod text;
pub mod sorting;
pub mod coin_selection;
pub mod orderbook;
pub mod mm2_config;
pub mod ids;
pub mod ui;
pub mod controller;
pub mod menu_v;
pub mod active_coins;
