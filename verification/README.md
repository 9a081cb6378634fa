# vendor_oplus_charger

The charging logic of a native `ICharger` HAL for Xiaomi devices running
ColorOS, written and verified in Verus, and the service around it. The service
reads `power_supply` and `qcom-battery` sysfs nodes and answers as

```text
vendor.oplus.hardware.charger.ICharger/default
```

## Layout

- `src/` is the library. It does no I/O: it says which node to read or write
  next, takes what was read, and keeps the state that clients are answered from.
  - `text`, `units`: texts as character sequences, integers, unit conversion.
  - `nodes`, `readings`: the sysfs nodes of each metric, and what a reading does
    to the charging state.
  - `info`, `snapshot`: the charging state and its fast-charge part.
  - `classify`, `battery`, `recheck`: fast-charge type, charge technology, power,
    remaining time, the best value of each battery metric.
  - `scan`: one scan of all nodes, as requests and answers.
  - `scan_laws`, `scan_results`, `scan_runs`: what a scan gives over nodes that hold
    still, and what holds of every run.
  - `poll`: when to probe and when to scan, and what a uevent leads to.
  - `decimal_soc`: the state of charge in hundredths of a percent.
  - `charge_limit`, `control`: charge limit and bypass charging.
  - `report`, `adapter`, `service`: the texts, the state, and the answers.
- `tests/` runs the library on concrete values.
- `app/` is the service: sysfs access, the poll worker, uevents, binder.

Laws that relate several functions stand as public proof functions at the end of
the module they belong to. The one thing that is believed without proof is what
`str::to_lowercase` does, in `text`.
