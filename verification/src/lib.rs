//! A small verified library around a toy `Pokemon` value type: a name, hit
//! points, and optional mana points, together with formatting, comparison and
//! evolution helpers whose behaviour is pinned down by contracts.

pub mod decimal;
pub mod pokemon;
