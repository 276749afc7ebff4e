//! Storage-side logic of the Mogcord messaging backend: conversion of domain
//! records into the documents kept in MongoDB, the relation (friend / block)
//! bookkeeping, request checks of the HTTP handlers and the log records.

pub mod api;
pub mod db;
pub mod dto;
pub mod error;
pub mod ids;
