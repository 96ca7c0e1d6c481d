//! Stellar RPC method getEvents

use vstd::prelude::*;

use crate::app::model::forms::{FieldSpec, FieldType, FormState, FormView};
use crate::app::methods::helpers::{list_value, optional_json, optional_number, optional_text};
use crate::app::methods::params::{
    built_view, entry_if, number_param, number_view, pagination_entry, push_pagination,
    text_array, text_param, text_view, Entries, ParamValue, ParamView,
};
use crate::app::methods::{
    parse_list, parse_optional_json, parse_optional_string, parse_optional_u64, MethodId,
    MethodSpec,
};
use crate::text::{ascii_lower, owned, text_eq, to_ascii_lowercase, trim, trimmed};

verus! {

/// Ledger window, pagination, event filters and XDR format.
pub open spec fn fields() -> Seq<FieldSpec> {
    seq![
        FieldSpec {
            key: "startLedger",
            label: "Start ledger",
            field_type: FieldType::Number,
            optional: true,
            default_value: "",
            hint: "Inclusive start ledger sequence",
        },
        FieldSpec {
            key: "endLedger",
            label: "End ledger",
            field_type: FieldType::Number,
            optional: true,
            default_value: "",
            hint: "Exclusive end ledger sequence",
        },
        FieldSpec {
            key: "cursor",
            label: "Cursor",
            field_type: FieldType::Text,
            optional: true,
            default_value: "",
            hint: "Use instead of 'startLedger'",
        },
        FieldSpec {
            key: "limit",
            label: "Limit",
            field_type: FieldType::Number,
            optional: true,
            default_value: "10",
            hint: "1-10000 (default: 10)",
        },
        FieldSpec {
            key: "type",
            label: "Event type",
            field_type: FieldType::Text,
            optional: true,
            default_value: "",
            hint: "'system' or 'contract'",
        },
        FieldSpec {
            key: "contractIds",
            label: "Contract IDs",
            field_type: FieldType::List,
            optional: true,
            default_value: "",
            hint: "Comma-separated contract IDs, up to 5",
        },
        FieldSpec {
            key: "topics",
            label: "Topics",
            field_type: FieldType::Json,
            optional: true,
            default_value: "",
            hint: "JSON array, up to 5",
        },
        FieldSpec {
            key: "xdrFormat",
            label: "XDR format",
            field_type: FieldType::Text,
            optional: true,
            default_value: "json",
            hint: "'json' (default) or 'base64'",
        },
    ]
}

/// Whether an event type, trimmed and lower-cased, is `system` or `contract`.
pub open spec fn type_enables_filters(event_type: Option<Seq<char>>) -> bool {
    match event_type {
        Some(v) => ascii_lower(trimmed(v)) == "system"@ || ascii_lower(trimmed(v)) == "contract"@,
        None => false,
    }
}

/// The `contractIds` entry: present when there are ids.
pub open spec fn ids_entry(ids: Seq<Seq<char>>) -> Seq<(Seq<char>, ParamView)> {
    if ids.len() > 0 {
        seq![("contractIds"@, ParamView::Array(ids.map_values(|t: Seq<char>| ParamView::Text(t))))]
    } else {
        Seq::empty()
    }
}

/// The `filters` entry: one filter object, present when a type, ids or topics are given.
pub open spec fn filters_entry(
    event_type: Option<Seq<char>>,
    ids: Seq<Seq<char>>,
    topics: Option<Seq<char>>,
) -> Seq<(Seq<char>, ParamView)> {
    if event_type is Some || ids.len() > 0 || topics is Some {
        seq![
            ("filters"@, ParamView::Array(
                seq![
                    ParamView::Object(
                        entry_if("type"@, text_view(event_type)) + ids_entry(ids) + entry_if(
                            "topics"@,
                            match topics {
                                Some(t) => Some(ParamView::Raw(t)),
                                None => None,
                            },
                        ),
                    ),
                ],
            )),
        ]
    } else {
        Seq::empty()
    }
}

/// The parameters, or the first problem found: a number that does not parse, topics
/// that are not JSON, a start ledger together with a cursor, more than five contract
/// ids or topics, or ids/topics without an event type that enables them.
pub open spec fn params(form: FormView) -> Result<ParamView, Seq<char>> {
    match optional_number(form, "startLedger"@) {
        Err(e) => Err(e),
        Ok(start) => match optional_number(form, "endLedger"@) {
            Err(e) => Err(e),
            Ok(end) => {
                let cursor = optional_text(form, "cursor"@);
                match optional_number(form, "limit"@) {
                    Err(e) => Err(e),
                    Ok(limit) => {
                        let event_type = optional_text(form, "type"@);
                        let ids = list_value(form, "contractIds"@);
                        match optional_json(form, "topics"@) {
                            Err(e) => Err(e),
                            Ok(topics) => {
                                let xdr = optional_text(form, "xdrFormat"@);
                                let topics_text = match topics {
                                    Some(t) => Some(t.0),
                                    None => None,
                                };
                                if cursor is Some && start is Some {
                                    Err("Provide either startLedger or cursor, not both"@)
                                } else if ids.len() > 5 {
                                    Err("contractIds supports up to 5 values"@)
                                } else if topics matches Some((_, Some(n))) && n > 5 {
                                    Err("topics supports up to 5 values"@)
                                } else if (ids.len() > 0 || topics is Some)
                                    && !type_enables_filters(event_type) {
                                    Err("Event type is required when using contractIds or topics"@)
                                } else {
                                    Ok(
                                        ParamView::Object(
                                            entry_if("startLedger"@, number_view(start)) + entry_if(
                                                "endLedger"@,
                                                number_view(end),
                                            ) + entry_if("xdrFormat"@, text_view(xdr))
                                                + pagination_entry(limit, cursor) + filters_entry(
                                                event_type,
                                                ids,
                                                topics_text,
                                            ),
                                        ),
                                    )
                                }
                            },
                        }
                    },
                }
            },
        },
    }
}

/// Returns the method specification
pub fn spec() -> (r: MethodSpec)
    ensures
        r.id == MethodId::GetEvents,
        r.name == "getEvents",
        r.http_method == "POST",
        r.fields@ == fields(),
        r.help == "Returns contract events.",
{
    let r = MethodSpec {
        id: MethodId::GetEvents,
        name: "getEvents",
        http_method: "POST",
        fields: vec![
            FieldSpec {
                key: "startLedger",
                label: "Start ledger",
                field_type: FieldType::Number,
                optional: true,
                default_value: "",
                hint: "Inclusive start ledger sequence",
            },
            FieldSpec {
                key: "endLedger",
                label: "End ledger",
                field_type: FieldType::Number,
                optional: true,
                default_value: "",
                hint: "Exclusive end ledger sequence",
            },
            FieldSpec {
                key: "cursor",
                label: "Cursor",
                field_type: FieldType::Text,
                optional: true,
                default_value: "",
                hint: "Use instead of 'startLedger'",
            },
            FieldSpec {
                key: "limit",
                label: "Limit",
                field_type: FieldType::Number,
                optional: true,
                default_value: "10",
                hint: "1-10000 (default: 10)",
            },
            FieldSpec {
                key: "type",
                label: "Event type",
                field_type: FieldType::Text,
                optional: true,
                default_value: "",
                hint: "'system' or 'contract'",
            },
            FieldSpec {
                key: "contractIds",
                label: "Contract IDs",
                field_type: FieldType::List,
                optional: true,
                default_value: "",
                hint: "Comma-separated contract IDs, up to 5",
            },
            FieldSpec {
                key: "topics",
                label: "Topics",
                field_type: FieldType::Json,
                optional: true,
                default_value: "",
                hint: "JSON array, up to 5",
            },
            FieldSpec {
                key: "xdrFormat",
                label: "XDR format",
                field_type: FieldType::Text,
                optional: true,
                default_value: "json",
                hint: "'json' (default) or 'base64'",
            },
        ],
        help: "Returns contract events.",
    };
    assert(r.fields@ =~= fields());
    r
}

/// Whether an event type enables the contract id and topic filters.
pub fn event_type_enabled(event_type: &Option<String>) -> (b: bool)
    ensures
        b == type_enables_filters(
            match event_type {
                Some(t) => Some(t@),
                None => None,
            },
        ),
{
    match event_type {
        Some(value) => {
            let trimmed_value = trim(value.as_str());
            let normalized = to_ascii_lowercase(trimmed_value.as_str());
            text_eq(normalized.as_str(), "system") || text_eq(normalized.as_str(), "contract")
        },
        None => false,
    }
}

/// Builds the JSON-RPC params object from form values
pub fn build(form: &FormState) -> (r: Result<ParamValue, String>)
    ensures
        built_view(r) == params(form@),
{
    let start_ledger = match parse_optional_u64(form, "startLedger") {
        Ok(v) => v,
        Err(e) => return Err(e),
    };
    let end_ledger = match parse_optional_u64(form, "endLedger") {
        Ok(v) => v,
        Err(e) => return Err(e),
    };
    let cursor = parse_optional_string(form, "cursor");
    let limit = match parse_optional_u64(form, "limit") {
        Ok(v) => v,
        Err(e) => return Err(e),
    };
    let event_type = parse_optional_string(form, "type");
    let contract_ids = parse_list(form, "contractIds");
    let topics = match parse_optional_json(form, "topics") {
        Ok(v) => v,
        Err(e) => return Err(e),
    };
    let xdr_format = parse_optional_string(form, "xdrFormat");

    if cursor.is_some() && start_ledger.is_some() {
        return Err(owned("Provide either startLedger or cursor, not both"));
    }
    if contract_ids.len() > 5 {
        return Err(owned("contractIds supports up to 5 values"));
    }
    if let Some(t) = &topics {
        if let Some(n) = t.array_len {
            if n > 5 {
                return Err(owned("topics supports up to 5 values"));
            }
        }
    }
    let enabled = event_type_enabled(&event_type);
    // contractIds and topics are only meaningful when event type is explicitly constrained
    if (contract_ids.len() > 0 || topics.is_some()) && !enabled {
        return Err(owned("Event type is required when using contractIds or topics"));
    }

    let ghost cv = crate::text::opt_view(cursor);
    let ghost xv = crate::text::opt_view(xdr_format);
    let ghost tv = crate::text::opt_view(event_type);
    let ghost topics_text = crate::app::methods::helpers::json_text_view(topics);
    let ghost ids = contract_ids.deep_view();

    let mut params = Entries::new();
    params.push_if("startLedger", number_param(start_ledger));
    params.push_if("endLedger", number_param(end_ledger));
    params.push_if("xdrFormat", text_param(xdr_format));
    push_pagination(&mut params, limit, cursor);
    let ghost before = params.eview();

    if event_type.is_some() || contract_ids.len() > 0 || topics.is_some() {
        let mut filters = Entries::new();
        filters.push_if("type", text_param(event_type));
        let ghost after_type = filters.eview();
        if contract_ids.len() > 0 {
            filters.push("contractIds", text_array(&contract_ids));
        }
        assert(filters.eview() =~= after_type + ids_entry(ids));
        let ghost after_ids = filters.eview();
        match topics {
            Some(t) => {
                filters.push("topics", ParamValue::Raw(t.text));
            },
            None => {},
        }
        assert(filters.eview() =~= after_ids + entry_if(
            "topics"@,
            match topics_text {
                Some(t) => Some(ParamView::Raw(t)),
                None => None,
            },
        ));
        let filter = filters.into_object();
        let ghost fv = filter.pview();
        let mut list: Vec<ParamValue> = Vec::new();
        list.push(filter);
        proof {
            crate::app::methods::params::lemma_array_view(list);
            assert(crate::app::methods::params::items_view(list@) =~= seq![fv]);
        }
        // RPC expects filters as an array even for a single filter block
        params.push("filters", ParamValue::Array(list));
    }
    assert(params.eview() =~= before + filters_entry(tv, ids, topics_text));
    assert(params.eview() =~= entry_if("startLedger"@, number_view(start_ledger)) + entry_if(
        "endLedger"@,
        number_view(end_ledger),
    ) + entry_if("xdrFormat"@, text_view(xv)) + pagination_entry(limit, cv) + filters_entry(
        tv,
        ids,
        topics_text,
    ));
    Ok(params.into_object())
}

} // verus!
