//! Certificate compliance checking: field-level rules over a decoded X.509
//! certificate, each yielding a severity-tagged result, collected into one report.
pub mod text;
pub mod outcome;
pub mod levels;
pub mod rules;
pub mod algorithms;
pub mod validity;
pub mod x509;
pub mod certificate;
pub mod sections;
