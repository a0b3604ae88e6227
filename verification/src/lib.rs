pub mod text;
pub mod ranking;
pub mod route_counter;
pub mod timing;
pub mod reserve_line;
pub mod web_service;
pub mod reserve_controller;
pub mod airline_semaphores;
pub mod actors;
