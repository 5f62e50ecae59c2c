//! The Bangla (Bengali) calendar of Bangladesh: conversion of Gregorian dates,
//! month-grid facts for a calendar view, and Bangla display text.
pub mod gregorian;
pub mod calendar;
pub mod grid;
pub mod text;
