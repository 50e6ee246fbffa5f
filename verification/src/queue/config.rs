//! Which queue driver to use.
use vstd::prelude::*;
use vstd::string::*;

verus! {

/// The available drivers.
#[derive(Debug, Clone, Copy, PartialEq, Eq)]
pub enum QueueDriverType {
    Database,
    Sqs,
}

/// Queue settings.
pub struct QueueConfig {
    pub driver: QueueDriverType,
    pub sqs_region: Option<String>,
    pub sqs_queue_url: Option<String>,
    pub default_queue: String,
}

/// Why the configured driver cannot be set up.
#[derive(Debug, Clone, Copy, PartialEq, Eq)]
pub enum QueueConfigError {
    MissingSqsRegion,
    MissingSqsQueueUrl,
}

impl QueueConfigError {
    /// The message the framework reports.
    pub fn message(&self) -> (s: String)
        ensures
            s@ == (match self {
                QueueConfigError::MissingSqsRegion => "SQS region not configured"@,
                QueueConfigError::MissingSqsQueueUrl => "SQS queue URL not configured"@,
            }),
    {
        match self {
            QueueConfigError::MissingSqsRegion => String::from_str("SQS region not configured"),
            QueueConfigError::MissingSqsQueueUrl => String::from_str("SQS queue URL not configured"),
        }
    }
}

impl QueueConfig {
    /// The database driver, no SQS settings, and the queue `default`.
    pub fn default() -> (c: Self)
        ensures
            c.driver == QueueDriverType::Database,
            c.sqs_region is None,
            c.sqs_queue_url is None,
            c.default_queue@ == "default"@,
    {
        QueueConfig {
            driver: QueueDriverType::Database,
            sqs_region: None,
            sqs_queue_url: None,
            default_queue: String::from_str("default"),
        }
    }

    /// For the SQS driver, the region and queue URL it needs; the region is checked first.
    pub fn sqs_settings(&self) -> (r: Result<(&str, &str), QueueConfigError>)
        ensures
            match (self.sqs_region, self.sqs_queue_url) {
                (None, _) => r == Err::<(&str, &str), _>(QueueConfigError::MissingSqsRegion),
                (Some(_), None) => r == Err::<(&str, &str), _>(QueueConfigError::MissingSqsQueueUrl),
                (Some(region), Some(url)) => r matches Ok(p) && p.0@ == region@ && p.1@ == url@,
            },
    {
        match &self.sqs_region {
            None => Err(QueueConfigError::MissingSqsRegion),
            Some(region) => match &self.sqs_queue_url {
                None => Err(QueueConfigError::MissingSqsQueueUrl),
                Some(url) => Ok((region.as_str(), url.as_str())),
            },
        }
    }
}

} // verus!
