//! Resource context: the cross-cutting fields shared by every record of one
//! invocation — the resource attributes and the single-use schema URL.

use vstd::prelude::*;

use crate::attr::Attribute;
use crate::wire::{kvs_of_attrs, Resource};

verus! {

/// The accumulated `-r`/`--resources` attributes and the optional schema
/// URL of one invocation. The schema URL is a single-use value: it is moved
/// out on first use and observed empty afterwards.
#[derive(Debug)]
pub struct ResourceOptions {
    pub resources: Vec<Attribute>,
    pub schema_url: Option<String>,
}

/// What taking the schema URL yields: the configured URL the first time,
/// the empty string once it is gone.
pub open spec fn taken_schema_url(schema_url: Option<String>) -> Seq<char> {
    match schema_url {
        Some(u) => u@,
        None => Seq::<char>::empty(),
    }
}

/// The context after its schema URL has been consumed: the attributes are
/// kept, the URL is gone.
pub open spec fn consume_schema(res: ResourceOptions) -> ResourceOptions {
    ResourceOptions { resources: res.resources, schema_url: None }
}

impl ResourceOptions {
    /// The wire resource: the accumulated attributes mapped one-for-one,
    /// with a dropped count of 0.
    pub fn resource(&self) -> (r: Resource)
        ensures
            r.dropped_attributes_count == 0,
            kvs_of_attrs(r.attributes@, self.resources@),
    {
        Resource {
            attributes: crate::wire::attrs_to_key_values(&self.resources),
            dropped_attributes_count: 0,
        }
    }

    /// Moves the schema URL out: the configured value the first time, the
    /// empty string on any later call on the same context.
    pub fn take_schema_url(&mut self) -> (r: String)
        ensures
            r@ == taken_schema_url(old(self).schema_url),
            *final(self) == consume_schema(*old(self)),
    {
        let r = match &self.schema_url {
            Some(u) => u.clone(),
            None => String::new(),
        };
        self.schema_url = None;
        r
    }
}

/// The schema URL is consumed at most once per context: taking it from a
/// context that still holds `url` yields `url` and leaves a context without
/// one, so any later take on that context yields the empty string.
pub proof fn lemma_schema_url_single_use(res: ResourceOptions, url: String)
    requires
        res.schema_url == Some(url),
    ensures
        taken_schema_url(res.schema_url) == url@,
        consume_schema(res).schema_url is None,
        taken_schema_url(consume_schema(res).schema_url) == Seq::<char>::empty(),
        consume_schema(res).resources == res.resources,
{
}

} // verus!
