//! Content negotiation: the formats a work's metadata can be asked for
//! and their MIME identifiers.

use vstd::prelude::*;

verus! {

/// The representations content negotiation can produce.
#[derive(Debug, Clone, Copy, PartialEq, Eq, Structural)]
pub enum CnFormat {
    RdfXml,
    Turtle,
    CiteProcJson,
    CiteProcJsonIsh,
    Text,
    Ris,
    BibTex,
    CrossrefXml,
    DataciteXml,
    BibEntry,
    CrossrefTdm,
}

impl CnFormat {
    /// The MIME identifier of this format.
    pub open spec fn spec_mime_type(self) -> Seq<char> {
        match self {
            CnFormat::RdfXml => "text/xml"@,
            CnFormat::Turtle => "text/plain"@,
            CnFormat::CiteProcJson => "application/json"@,
            CnFormat::CiteProcJsonIsh => "application/json"@,
            CnFormat::Text => "text/plain"@,
            CnFormat::Ris => "text/plain"@,
            CnFormat::BibTex => "text/xml"@,
            CnFormat::CrossrefXml => "text/xml"@,
            CnFormat::DataciteXml => ""@,
            CnFormat::BibEntry => "text/plain"@,
            CnFormat::CrossrefTdm => "text/xml"@,
        }
    }

    /// The accept-header value of this format.
    pub open spec fn spec_header(self) -> Seq<char> {
        match self {
            CnFormat::RdfXml => "application/rdf+xml"@,
            CnFormat::Turtle => "text/turtle"@,
            CnFormat::CiteProcJson => "transform/application/vnd.citationstyles.csl+json"@,
            CnFormat::CiteProcJsonIsh => "transform/application/vnd.citationstyles.csl+json"@,
            CnFormat::Text => "text/x-bibliography"@,
            CnFormat::Ris => "application/x-research-info-systems"@,
            CnFormat::BibTex => "application/x-bibtex"@,
            CnFormat::CrossrefXml => "application/vnd.crossref.unixref+xml"@,
            CnFormat::DataciteXml => "application/vnd.datacite.datacite+xml"@,
            CnFormat::BibEntry => "application/x-bibtex"@,
            CnFormat::CrossrefTdm => "application/vnd.crossref.unixsd+xml"@,
        }
    }

    /// The MIME identifier of this format.
    pub fn mime_type(&self) -> (r: &str)
        ensures
            r@ == self.spec_mime_type(),
    {
        match self {
            CnFormat::RdfXml => "text/xml",
            CnFormat::Turtle => "text/plain",
            CnFormat::CiteProcJson => "application/json",
            CnFormat::CiteProcJsonIsh => "application/json",
            CnFormat::Text => "text/plain",
            CnFormat::Ris => "text/plain",
            CnFormat::BibTex => "text/xml",
            CnFormat::CrossrefXml => "text/xml",
            CnFormat::DataciteXml => "",
            CnFormat::BibEntry => "text/plain",
            CnFormat::CrossrefTdm => "text/xml",
        }
    }

    /// The accept-header value of this format.
    pub fn header(&self) -> (r: &str)
        ensures
            r@ == self.spec_header(),
    {
        match self {
            CnFormat::RdfXml => "application/rdf+xml",
            CnFormat::Turtle => "text/turtle",
            CnFormat::CiteProcJson | CnFormat::CiteProcJsonIsh => {
                "transform/application/vnd.citationstyles.csl+json"
            },
            CnFormat::Text => "text/x-bibliography",
            CnFormat::Ris => "application/x-research-info-systems",
            CnFormat::BibTex => "application/x-bibtex",
            CnFormat::CrossrefXml => "application/vnd.crossref.unixref+xml",
            CnFormat::DataciteXml => "application/vnd.datacite.datacite+xml",
            CnFormat::BibEntry => "application/x-bibtex",
            CnFormat::CrossrefTdm => "application/vnd.crossref.unixsd+xml",
        }
    }
}

} // verus!
