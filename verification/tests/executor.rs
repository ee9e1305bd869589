use std::cell::Cell;

use wasm_executor::{
    CallingFrame, CommonConfigOptions, ConfigBuilder, ExecError, Executor, Func, FuncType,
    HostFuncError, ModuleId, RawValue, Statistics, Trap, ValType, WasmValue,
};

/// The function of the guest module used below, written for the host: the
/// loop that starts from one and one and adds up `n - 1` times.
fn fib(
    _frame: CallingFrame,
    inputs: Vec<WasmValue>,
    _data: Option<&()>,
) -> Result<Vec<WasmValue>, HostFuncError> {
    let n = inputs[0].to_i32();
    let mut previous: i32 = 1;
    let mut current: i32 = 1;
    let mut i = 1;
    while i < n {
        let next = previous.wrapping_add(current);
        previous = current;
        current = next;
        i += 1;
    }
    Ok(vec![WasmValue::from_i32(current)])
}

fn nothing(
    _frame: CallingFrame,
    _inputs: Vec<WasmValue>,
    _data: Option<&()>,
) -> Result<Vec<WasmValue>, HostFuncError> {
    Ok(vec![])
}

fn echo(
    _frame: CallingFrame,
    inputs: Vec<WasmValue>,
    _data: Option<&()>,
) -> Result<Vec<WasmValue>, HostFuncError> {
    Ok(inputs)
}

/// The exports of a module instance, by name.
struct Instance<F>
where
    F: for<'x, 'a, 'd> Fn(
        CallingFrame<'x, 'a>,
        Vec<WasmValue>,
        Option<&'d ()>,
    ) -> Result<Vec<WasmValue>, HostFuncError>,
{
    name: String,
    exports: Vec<(String, Func<F, ()>)>,
}

impl<F> Instance<F>
where
    F: for<'x, 'a, 'd> Fn(
        CallingFrame<'x, 'a>,
        Vec<WasmValue>,
        Option<&'d ()>,
    ) -> Result<Vec<WasmValue>, HostFuncError>,
{
    fn func(&self, name: &str) -> Result<&Func<F, ()>, String> {
        for (export, func) in self.exports.iter() {
            if export == name {
                return Ok(func);
            }
        }
        Err(format!("{} has no export {}", self.name, name))
    }
}

#[test]
fn test_executor_create() {
    {
        let result = Executor::new(None, None);
        assert!(result.is_ok());
    }

    {
        let result = ConfigBuilder::new(CommonConfigOptions::default()).build();
        assert!(result.is_ok());
        let config = result.unwrap();

        let result = Executor::new(Some(&config), None);
        assert!(result.is_ok());

        assert!(config.bulk_memory_operations_enabled());
    }

    {
        let result = Statistics::new();
        assert!(result.is_ok());
        let mut stat = result.unwrap();

        let result = Executor::new(None, Some(&mut stat));
        assert!(result.is_ok());

        assert_eq!(stat.cost(), 0);
    }

    {
        let result = ConfigBuilder::new(CommonConfigOptions::default()).build();
        assert!(result.is_ok());
        let config = result.unwrap();

        let result = Statistics::new();
        assert!(result.is_ok());
        let mut stat = result.unwrap();

        let result = Executor::new(Some(&config), Some(&mut stat));
        assert!(result.is_ok());

        assert!(config.bulk_memory_operations_enabled());
        assert_eq!(stat.cost(), 0);
    }
}

#[test]
fn test_executor_run_func() {
    // create an executor
    let result = ConfigBuilder::new(CommonConfigOptions::default()).build();
    assert!(result.is_ok());
    let config = result.unwrap();

    let result = Statistics::new();
    assert!(result.is_ok());
    let mut stat = result.unwrap();

    let result = Executor::new(Some(&config), Some(&mut stat));
    assert!(result.is_ok());
    let mut executor = result.unwrap();

    // the function of type (param i32) (result i32) that the module exports
    let result = Func::wrap(
        FuncType::new(vec![ValType::I32], vec![ValType::I32]),
        fib,
        None,
        1,
    );
    assert!(result.is_ok());
    let func = result.unwrap().in_module(ModuleId(0));

    // the module instance named "extern", with its export "fib"
    let extern_instance = Instance {
        name: "extern".to_string(),
        exports: vec![("fib".to_string(), func)],
    };

    // get the exported function "fib"
    let result = extern_instance.func("fib");
    assert!(result.is_ok());
    let fib = result.unwrap();

    // run the exported host function
    let result = executor.run_func(fib, vec![WasmValue::from_i32(5)]);
    assert!(result.is_ok());
    let returns = result.unwrap();
    assert_eq!(returns.len(), 1);
    assert_eq!(returns[0].to_i32(), 8);
}

#[test]
fn create_rejects_invalid_configuration() {
    let config = ConfigBuilder::new(CommonConfigOptions::default())
        .with_max_memory_pages(65537)
        .build()
        .unwrap();
    assert!(!config.is_valid());
    let mut stat = Statistics::new().unwrap();
    assert_eq!(Executor::new(Some(&config), None).err(), Some(ExecError::EngineInit));
    assert_eq!(
        Executor::new(Some(&config), Some(&mut stat)).err(),
        Some(ExecError::EngineInit)
    );
    assert_eq!(stat.cost(), 0);

    let widest = ConfigBuilder::new(CommonConfigOptions::default())
        .with_max_memory_pages(65536)
        .build()
        .unwrap();
    assert!(Executor::new(Some(&widest), None).is_ok());
}

#[test]
fn created_executor_keeps_its_configuration() {
    let config = ConfigBuilder::new(CommonConfigOptions { bulk_memory_operations: false })
        .with_max_memory_pages(16)
        .with_cost_limit(99)
        .build()
        .unwrap();
    let executor = Executor::new(Some(&config), None).unwrap();
    assert_eq!(executor.config(), config);
    assert_eq!(executor.config().max_memory_pages(), 16);
    assert_eq!(executor.config().cost_limit(), Some(99));
    assert!(!executor.config().bulk_memory_operations_enabled());
    assert_eq!(executor.cost(), None);

    let standard = Executor::new(None, None).unwrap();
    assert!(standard.config().bulk_memory_operations_enabled());
    assert_eq!(standard.config().max_memory_pages(), 65536);
    assert_eq!(standard.config().cost_limit(), None);
    assert_eq!(standard.config().effective_cost_limit(), u64::MAX);
}

#[test]
fn every_executor_runs_a_trivial_function() {
    let func = Func::wrap(FuncType::new(vec![], vec![]), nothing, None, 1).unwrap();
    let config = ConfigBuilder::new(CommonConfigOptions::default()).build().unwrap();

    let mut executor = Executor::new(None, None).unwrap();
    assert_eq!(executor.run_func(&func, vec![]), Ok(vec![]));

    let mut executor = Executor::new(Some(&config), None).unwrap();
    assert_eq!(executor.run_func(&func, vec![]), Ok(vec![]));

    let mut stat = Statistics::new().unwrap();
    let mut executor = Executor::new(None, Some(&mut stat)).unwrap();
    assert_eq!(executor.run_func(&func, vec![]), Ok(vec![]));

    let mut stat = Statistics::new().unwrap();
    let mut executor = Executor::new(Some(&config), Some(&mut stat)).unwrap();
    assert_eq!(executor.run_func(&func, vec![]), Ok(vec![]));
    assert_eq!(executor.run_func(&func, vec![]), Ok(vec![]));
}

#[test]
fn each_completed_run_adds_the_cost_of_the_function() {
    let priced = Func::wrap(FuncType::new(vec![], vec![]), nothing, None, 3).unwrap();
    let free = Func::wrap(FuncType::new(vec![], vec![]), nothing, None, 0).unwrap();
    let mut stat = Statistics::new().unwrap();
    assert_eq!(stat.cost(), 0);
    {
        let mut executor = Executor::new(None, Some(&mut stat)).unwrap();
        assert_eq!(executor.cost(), Some(0));
        assert!(executor.run_func(&priced, vec![]).is_ok());
        assert_eq!(executor.cost(), Some(3));
        assert!(executor.run_func(&priced, vec![]).is_ok());
        assert_eq!(executor.cost(), Some(6));
        assert!(executor.run_func(&free, vec![]).is_ok());
        assert_eq!(executor.cost(), Some(6));
        let sink = executor.release();
        assert_eq!(sink.map(|s| s.cost()), Some(6));
    }
    assert_eq!(stat.cost(), 6);
    assert_eq!(stat.time(), 0);
}

#[test]
fn unbound_executor_meters_nothing_and_keeps_the_limit() {
    let config = ConfigBuilder::new(CommonConfigOptions::default())
        .with_cost_limit(3)
        .build()
        .unwrap();
    let entered = Cell::new(0u32);
    let counting = |_frame: CallingFrame,
                    _inputs: Vec<WasmValue>,
                    entered: Option<&&Cell<u32>>|
     -> Result<Vec<WasmValue>, HostFuncError> {
        let entered = entered.unwrap();
        entered.set(entered.get() + 1);
        Ok(vec![])
    };
    let at_limit = Func::wrap(FuncType::new(vec![], vec![]), counting, Some(&entered), 3).unwrap();
    let over = Func::wrap(FuncType::new(vec![], vec![]), counting, Some(&entered), 4).unwrap();
    let mut executor = Executor::new(Some(&config), None).unwrap();
    // no cost is kept from call to call: each call has the whole limit
    assert_eq!(executor.run_func(&at_limit, vec![]), Ok(vec![]));
    assert_eq!(executor.run_func(&at_limit, vec![]), Ok(vec![]));
    assert_eq!(entered.get(), 2);
    // a call that alone costs more than the limit traps, sink or no sink
    assert_eq!(
        executor.run_func(&over, vec![]),
        Err(ExecError::Trap(Trap::ResourceLimitExceeded))
    );
    assert_eq!(
        executor.run_func_ref(&over.func_ref(), vec![]),
        Err(ExecError::Trap(Trap::ResourceLimitExceeded))
    );
    assert_eq!(entered.get(), 2);
    assert_eq!(executor.cost(), None);
    assert!(executor.release().is_none());

    let zero = ConfigBuilder::new(CommonConfigOptions::default())
        .with_cost_limit(0)
        .build()
        .unwrap();
    let mut executor = Executor::new(Some(&zero), None).unwrap();
    assert_eq!(
        executor.run_func(&at_limit, vec![]),
        Err(ExecError::Trap(Trap::ResourceLimitExceeded))
    );
    let free = Func::wrap(FuncType::new(vec![], vec![]), nothing, None, 0).unwrap();
    assert_eq!(executor.run_func(&free, vec![]), Ok(vec![]));
    // a mismatch is found before the cost is looked at
    assert_eq!(
        executor.run_func(&at_limit, vec![WasmValue::from_i32(1)]),
        Err(ExecError::TypeMismatch)
    );
}

#[test]
fn failed_creation_leaves_the_sink_as_it_was() {
    let config = ConfigBuilder::new(CommonConfigOptions::default())
        .with_max_memory_pages(u32::MAX)
        .build()
        .unwrap();
    let mut stat = Statistics::new().unwrap();
    stat.record_cost(41);
    stat.record_time(7);
    assert_eq!(Executor::new(Some(&config), Some(&mut stat)).err(), Some(ExecError::EngineInit));
    assert_eq!(stat.cost(), 41);
    assert_eq!(stat.time(), 7);
    // and so does a creation that succeeds
    assert!(Executor::new(None, Some(&mut stat)).is_ok());
    assert_eq!(stat.cost(), 41);
    assert_eq!(stat.time(), 7);
}

#[test]
fn mismatched_arguments_fail_and_leave_statistics_unchanged() {
    let func = Func::wrap(
        FuncType::new(vec![ValType::I32, ValType::I64], vec![]),
        |_frame: CallingFrame, _inputs: Vec<WasmValue>, _data: Option<&()>| -> Result<
            Vec<WasmValue>,
            HostFuncError,
        > { panic!("entered on arguments that do not fit") },
        None,
        5,
    )
    .unwrap();
    let mut stat = Statistics::new().unwrap();
    stat.record_cost(11);
    stat.record_time(4);
    let mut executor = Executor::new(None, Some(&mut stat)).unwrap();

    // too few, too many, none
    assert_eq!(
        executor.run_func(&func, vec![WasmValue::from_i32(1)]),
        Err(ExecError::TypeMismatch)
    );
    assert_eq!(
        executor.run_func(
            &func,
            vec![WasmValue::from_i32(1), WasmValue::from_i64(2), WasmValue::from_i32(3)]
        ),
        Err(ExecError::TypeMismatch)
    );
    assert_eq!(executor.run_func(&func, vec![]), Err(ExecError::TypeMismatch));
    // the right number, a wrong kind, in each place
    assert_eq!(
        executor.run_func(&func, vec![WasmValue::from_i64(1), WasmValue::from_i64(2)]),
        Err(ExecError::TypeMismatch)
    );
    assert_eq!(
        executor.run_func(&func, vec![WasmValue::from_i32(1), WasmValue::from_f64_bits(2)]),
        Err(ExecError::TypeMismatch)
    );
    // the right kinds in the wrong order
    assert_eq!(
        executor.run_func(&func, vec![WasmValue::from_i64(2), WasmValue::from_i32(1)]),
        Err(ExecError::TypeMismatch)
    );
    assert_eq!(executor.cost(), Some(11));
    drop(executor);
    assert_eq!(stat.cost(), 11);
    assert_eq!(stat.time(), 4);
}

#[test]
fn cost_limit_ends_in_a_trap() {
    let config = ConfigBuilder::new(CommonConfigOptions::default())
        .with_cost_limit(5)
        .build()
        .unwrap();
    let entered = Cell::new(0u32);
    let func = Func::wrap(
        FuncType::new(vec![], vec![]),
        |_frame: CallingFrame, _inputs: Vec<WasmValue>, data: Option<&&Cell<u32>>| -> Result<
            Vec<WasmValue>,
            HostFuncError,
        > {
            let entered = data.unwrap();
            entered.set(entered.get() + 1);
            Ok(vec![])
        },
        Some(&entered),
        3,
    )
    .unwrap();
    let mut stat = Statistics::new().unwrap();
    let mut executor = Executor::new(Some(&config), Some(&mut stat)).unwrap();
    assert_eq!(executor.run_func(&func, vec![]), Ok(vec![]));
    assert_eq!(executor.cost(), Some(3));
    // 3 + 3 is over 5: the call traps before the callable is entered, and
    // what was left to spend is spent
    assert_eq!(
        executor.run_func(&func, vec![]),
        Err(ExecError::Trap(Trap::ResourceLimitExceeded))
    );
    assert_eq!(executor.cost(), Some(5));
    assert_eq!(entered.get(), 1);
    // a trap leaves the executor fit for the next call
    assert_eq!(
        executor.run_func(&func, vec![]),
        Err(ExecError::Trap(Trap::ResourceLimitExceeded))
    );
    assert_eq!(executor.cost(), Some(5));
    assert_eq!(executor.run_func(&func, vec![WasmValue::from_i32(0)]), Err(ExecError::TypeMismatch));
    drop(executor);
    assert_eq!(stat.cost(), 5);
}

#[test]
fn cost_exactly_at_the_limit_is_allowed() {
    let config = ConfigBuilder::new(CommonConfigOptions::default())
        .with_cost_limit(6)
        .build()
        .unwrap();
    let func = Func::wrap(FuncType::new(vec![], vec![]), nothing, None, 3).unwrap();
    let mut stat = Statistics::new().unwrap();
    let mut executor = Executor::new(Some(&config), Some(&mut stat)).unwrap();
    assert!(executor.run_func(&func, vec![]).is_ok());
    assert!(executor.run_func(&func, vec![]).is_ok());
    assert_eq!(executor.cost(), Some(6));
    assert_eq!(
        executor.run_func(&func, vec![]),
        Err(ExecError::Trap(Trap::ResourceLimitExceeded))
    );
    assert_eq!(executor.cost(), Some(6));
}

#[test]
fn cost_over_the_limit_before_binding_is_kept() {
    let config = ConfigBuilder::new(CommonConfigOptions::default())
        .with_cost_limit(5)
        .build()
        .unwrap();
    let func = Func::wrap(FuncType::new(vec![], vec![]), nothing, None, 1).unwrap();
    let mut stat = Statistics::new().unwrap();
    stat.record_cost(9);
    let mut executor = Executor::new(Some(&config), Some(&mut stat)).unwrap();
    assert_eq!(
        executor.run_func(&func, vec![]),
        Err(ExecError::Trap(Trap::ResourceLimitExceeded))
    );
    assert_eq!(executor.cost(), Some(9));
}

#[test]
fn counting_stops_at_the_largest_cost() {
    let func = Func::wrap(FuncType::new(vec![], vec![]), nothing, None, 2).unwrap();
    let mut stat = Statistics::new().unwrap();
    stat.record_cost(u64::MAX - 1);
    let mut executor = Executor::new(None, Some(&mut stat)).unwrap();
    assert_eq!(
        executor.run_func(&func, vec![]),
        Err(ExecError::Trap(Trap::ResourceLimitExceeded))
    );
    assert_eq!(executor.cost(), Some(u64::MAX));
}

#[test]
fn host_failure_is_returned_with_its_cause_and_is_metered() {
    let failing = Func::wrap(
        FuncType::new(vec![ValType::I32], vec![ValType::I32]),
        |_frame: CallingFrame, inputs: Vec<WasmValue>, _data: Option<&()>| -> Result<
            Vec<WasmValue>,
            HostFuncError,
        > {
            if inputs[0].to_i32() < 0 {
                Err(HostFuncError::User(7))
            } else {
                Err(HostFuncError::Runtime(0x88))
            }
        },
        None,
        4,
    )
    .unwrap();
    let mut stat = Statistics::new().unwrap();
    let mut executor = Executor::new(None, Some(&mut stat)).unwrap();
    assert_eq!(
        executor.run_func(&failing, vec![WasmValue::from_i32(-1)]),
        Err(ExecError::HostFunction(HostFuncError::User(7)))
    );
    assert_eq!(
        executor.run_func(&failing, vec![WasmValue::from_i32(1)]),
        Err(ExecError::HostFunction(HostFuncError::Runtime(0x88)))
    );
    assert_eq!(executor.cost(), Some(8));
}

#[test]
fn results_that_do_not_fit_are_a_host_failure() {
    let mut executor = Executor::new(None, None).unwrap();
    // one result declared, none returned
    let short = Func::wrap(FuncType::new(vec![], vec![ValType::I32]), nothing, None, 0).unwrap();
    assert_eq!(
        executor.run_func(&short, vec![]),
        Err(ExecError::HostFunction(HostFuncError::ResultMismatch))
    );
    // an i64 declared, an i32 returned
    let wrong = Func::wrap(
        FuncType::new(vec![ValType::I32], vec![ValType::I64]),
        echo,
        None,
        0,
    )
    .unwrap();
    assert_eq!(
        executor.run_func(&wrong, vec![WasmValue::from_i32(1)]),
        Err(ExecError::HostFunction(HostFuncError::ResultMismatch))
    );
    // no result declared, one returned
    let long = Func::wrap(FuncType::new(vec![ValType::I32], vec![]), echo, None, 0).unwrap();
    assert_eq!(
        executor.run_func(&long, vec![WasmValue::from_i32(1)]),
        Err(ExecError::HostFunction(HostFuncError::ResultMismatch))
    );
}

#[test]
fn values_of_every_kind_pass_through_a_call_unchanged() {
    let kinds = vec![
        ValType::I32,
        ValType::I64,
        ValType::F32,
        ValType::F64,
        ValType::V128,
        ValType::FuncRef,
        ValType::ExternRef,
        ValType::FuncRef,
        ValType::ExternRef,
    ];
    let same = Func::wrap(
        FuncType::new(kinds.clone(), kinds),
        |_frame: CallingFrame, inputs: Vec<WasmValue>, _data: Option<&()>| -> Result<
            Vec<WasmValue>,
            HostFuncError,
        > {
            assert_eq!(inputs[0], WasmValue::I32(i32::MIN));
            assert_eq!(inputs[5], WasmValue::FuncRef(None));
            Ok(inputs)
        },
        None,
        0,
    )
    .unwrap();
    let values = vec![
        WasmValue::from_i32(i32::MIN),
        WasmValue::from_i64(-2),
        WasmValue::from_f32_bits((-0.0f32).to_bits()),
        WasmValue::from_f64_bits(f64::NAN.to_bits() | 0x1234),
        WasmValue::from_v128(i128::MIN + 5),
        WasmValue::FuncRef(None),
        WasmValue::ExternRef(None),
        WasmValue::from_func_ref(0),
        WasmValue::from_extern_ref(u64::MAX),
    ];
    let mut executor = Executor::new(None, None).unwrap();
    assert_eq!(executor.run_func(&same, values.clone()), Ok(values));
}

#[test]
fn run_func_ref_runs_the_function_referred_to() {
    let func = Func::wrap(
        FuncType::new(vec![ValType::I32], vec![ValType::I32]),
        fib,
        None,
        2,
    )
    .unwrap();
    let func_ref = func.func_ref();
    assert_eq!(func_ref.func().cost(), 2);
    let mut stat = Statistics::new().unwrap();
    let mut executor = Executor::new(None, Some(&mut stat)).unwrap();
    let returns = executor.run_func_ref(&func_ref, vec![WasmValue::from_i32(5)]).unwrap();
    assert_eq!(returns, vec![WasmValue::from_i32(8)]);
    let returns = executor.run_func_ref(&func_ref, vec![WasmValue::from_i32(10)]).unwrap();
    assert_eq!(returns, vec![WasmValue::from_i32(89)]);
    assert_eq!(
        executor.run_func_ref(&func_ref, vec![WasmValue::from_i64(5)]),
        Err(ExecError::TypeMismatch)
    );
    assert_eq!(executor.cost(), Some(4));
}

#[test]
fn the_frame_shows_the_executor_and_the_module() {
    let config = ConfigBuilder::new(CommonConfigOptions { bulk_memory_operations: false })
        .with_max_memory_pages(3)
        .build()
        .unwrap();
    let looking = |frame: CallingFrame, _inputs: Vec<WasmValue>, _data: Option<&()>| -> Result<
        Vec<WasmValue>,
        HostFuncError,
    > {
        let module = match frame.module() {
            Some(ModuleId(id)) => id as i64,
            None => -1,
        };
        Ok(vec![
            WasmValue::from_i64(module),
            WasmValue::from_i32(frame.executor().config().max_memory_pages() as i32),
            // the cost of the running call is charged before it is entered
            WasmValue::from_i64(frame.executor().cost().unwrap() as i64),
        ])
    };
    let ty = || FuncType::new(vec![], vec![ValType::I64, ValType::I32, ValType::I64]);
    let mut stat = Statistics::new().unwrap();
    let mut executor = Executor::new(Some(&config), Some(&mut stat)).unwrap();

    let free_standing = Func::wrap(ty(), looking, None, 10).unwrap();
    assert_eq!(free_standing.module(), None);
    assert_eq!(
        executor.run_func(&free_standing, vec![]),
        Ok(vec![WasmValue::from_i64(-1), WasmValue::from_i32(3), WasmValue::from_i64(10)])
    );
    let member = free_standing.in_module(ModuleId(42));
    assert_eq!(member.module(), Some(ModuleId(42)));
    assert_eq!(member.cost(), 10);
    assert_eq!(
        executor.run_func(&member, vec![]),
        Ok(vec![WasmValue::from_i64(42), WasmValue::from_i32(3), WasmValue::from_i64(20)])
    );
}

#[test]
fn the_function_object_lends_its_payload_at_each_call() {
    struct Data {
        x: i32,
        calls: Cell<i32>,
    }
    let func = Func::wrap(
        FuncType::new(vec![ValType::I32], vec![ValType::I32, ValType::I32]),
        |_frame: CallingFrame, inputs: Vec<WasmValue>, data: Option<&Data>| -> Result<
            Vec<WasmValue>,
            HostFuncError,
        > {
            let data = data.unwrap();
            data.calls.set(data.calls.get() + 1);
            Ok(vec![
                WasmValue::from_i32(inputs[0].to_i32() + data.x),
                WasmValue::from_i32(data.calls.get()),
            ])
        },
        Some(Data { x: 12, calls: Cell::new(0) }),
        0,
    )
    .unwrap();
    let mut executor = Executor::new(None, None).unwrap();
    assert_eq!(
        executor.run_func(&func, vec![WasmValue::from_i32(30)]),
        Ok(vec![WasmValue::from_i32(42), WasmValue::from_i32(1)])
    );
    assert_eq!(
        executor.run_func(&func, vec![WasmValue::from_i32(-12)]),
        Ok(vec![WasmValue::from_i32(0), WasmValue::from_i32(2)])
    );
}

#[test]
fn prepare_call_checks_and_converts_the_arguments() {
    let ty = FuncType::new(vec![ValType::I32, ValType::FuncRef], vec![]);
    let mut stat = Statistics::new().unwrap();
    stat.record_cost(4);
    let executor = Executor::new(None, Some(&mut stat)).unwrap();
    assert_eq!(
        executor.prepare_call(&ty, &vec![WasmValue::from_i32(-1), WasmValue::FuncRef(None)]),
        Ok(vec![
            RawValue { bits: 0xFFFF_FFFF, ty: ValType::I32 },
            RawValue { bits: 0, ty: ValType::FuncRef }
        ])
    );
    assert_eq!(
        executor.prepare_call(&ty, &vec![WasmValue::from_i32(-1)]),
        Err(ExecError::TypeMismatch)
    );
    assert_eq!(
        executor.prepare_call(&ty, &vec![WasmValue::FuncRef(None), WasmValue::from_i32(-1)]),
        Err(ExecError::TypeMismatch)
    );
    assert_eq!(executor.cost(), Some(4));
}

#[test]
fn conclude_call_meters_and_reads_the_results() {
    let ty = FuncType::new(vec![], vec![ValType::I64, ValType::I32]);
    let mut stat = Statistics::new().unwrap();
    let mut executor = Executor::new(None, Some(&mut stat)).unwrap();
    let results = vec![
        RawValue { bits: 0xFFFF_FFFF_FFFF_FFFF, ty: ValType::I64 },
        RawValue { bits: (9u128 << 32) | 8, ty: ValType::I32 },
    ];
    assert_eq!(
        executor.conclude_call(&ty, 120, Ok(results)),
        Ok(vec![WasmValue::from_i64(-1), WasmValue::from_i32(8)])
    );
    assert_eq!(executor.cost(), Some(120));

    // results of other kinds, or another number of them, do not fit
    assert_eq!(
        executor.conclude_call(&ty, 1, Ok(vec![RawValue { bits: 1, ty: ValType::I64 }])),
        Err(ExecError::SignatureMismatch)
    );
    assert_eq!(
        executor.conclude_call(
            &ty,
            1,
            Ok(vec![
                RawValue { bits: 1, ty: ValType::I32 },
                RawValue { bits: 1, ty: ValType::I64 }
            ])
        ),
        Err(ExecError::SignatureMismatch)
    );
    assert_eq!(executor.cost(), Some(122));
}

#[test]
fn conclude_call_meters_a_call_that_trapped() {
    let ty = FuncType::new(vec![], vec![]);
    let mut stat = Statistics::new().unwrap();
    let mut executor = Executor::new(None, Some(&mut stat)).unwrap();
    for (i, trap) in [Trap::OutOfBounds, Trap::ArithmeticFault, Trap::Unreachable]
        .into_iter()
        .enumerate()
    {
        assert_eq!(
            executor.conclude_call(&ty, 10, Err(ExecError::Trap(trap))),
            Err(ExecError::Trap(trap))
        );
        assert_eq!(executor.cost(), Some(10 * (i as u64 + 1)));
    }
    assert_eq!(
        executor.conclude_call(&ty, 5, Err(ExecError::HostFunction(HostFuncError::User(1)))),
        Err(ExecError::HostFunction(HostFuncError::User(1)))
    );
    assert_eq!(executor.cost(), Some(35));
    // the executor is fit for the next call
    assert_eq!(executor.conclude_call(&ty, 0, Ok(vec![])), Ok(vec![]));
    assert_eq!(executor.cost(), Some(35));
}

#[test]
fn conclude_call_stops_at_the_cost_limit() {
    let config = ConfigBuilder::new(CommonConfigOptions::default())
        .with_cost_limit(100)
        .build()
        .unwrap();
    let ty = FuncType::new(vec![], vec![]);
    let mut stat = Statistics::new().unwrap();
    let mut executor = Executor::new(Some(&config), Some(&mut stat)).unwrap();
    assert_eq!(executor.conclude_call(&ty, 100, Ok(vec![])), Ok(vec![]));
    assert_eq!(executor.cost(), Some(100));
    assert_eq!(
        executor.conclude_call(&ty, 1, Ok(vec![])),
        Err(ExecError::Trap(Trap::ResourceLimitExceeded))
    );
    assert_eq!(executor.cost(), Some(100));

    let mut stat = Statistics::new().unwrap();
    let mut executor = Executor::new(Some(&config), Some(&mut stat)).unwrap();
    assert_eq!(
        executor.conclude_call(&ty, 250, Err(ExecError::Trap(Trap::Unreachable))),
        Err(ExecError::Trap(Trap::ResourceLimitExceeded))
    );
    assert_eq!(executor.cost(), Some(100));

    // without a sink nothing is metered, and the limit bounds each call
    let mut executor = Executor::new(Some(&config), None).unwrap();
    assert_eq!(executor.conclude_call(&ty, 100, Ok(vec![])), Ok(vec![]));
    assert_eq!(executor.conclude_call(&ty, 100, Ok(vec![])), Ok(vec![]));
    assert_eq!(
        executor.conclude_call(&ty, 101, Ok(vec![])),
        Err(ExecError::Trap(Trap::ResourceLimitExceeded))
    );
    assert_eq!(
        executor.conclude_call(&ty, 250, Err(ExecError::Trap(Trap::OutOfBounds))),
        Err(ExecError::Trap(Trap::ResourceLimitExceeded))
    );
    assert_eq!(executor.cost(), None);
}

#[test]
fn record_time_adds_to_the_bound_sink() {
    let mut stat = Statistics::new().unwrap();
    stat.record_cost(2);
    {
        let mut executor = Executor::new(None, Some(&mut stat)).unwrap();
        executor.record_time(1_500);
        executor.record_time(500);
        assert_eq!(executor.cost(), Some(2));
    }
    assert_eq!(stat.time(), 2_000);
    assert_eq!(stat.cost(), 2);
    {
        let mut executor = Executor::new(None, Some(&mut stat)).unwrap();
        executor.record_time(u64::MAX);
    }
    assert_eq!(stat.time(), u64::MAX);

    let mut unbound = Executor::new(None, None).unwrap();
    unbound.record_time(7);
    assert_eq!(unbound.cost(), None);
}

#[test]
fn the_function_object_shows_its_payload() {
    let func = Func::wrap(FuncType::new(vec![], vec![]), echo, Some(()), 0).unwrap();
    assert_eq!(func.data(), Some(&()));
    let func = Func::wrap(FuncType::new(vec![], vec![]), echo, None, 0).unwrap();
    assert_eq!(func.data(), None);
    let func = Func::wrap(
        FuncType::new(vec![], vec![]),
        |_frame: CallingFrame, _inputs: Vec<WasmValue>, _data: Option<&String>| -> Result<
            Vec<WasmValue>,
            HostFuncError,
        > { Ok(vec![]) },
        Some("hello".to_string()),
        0,
    )
    .unwrap()
    .in_module(ModuleId(1));
    assert_eq!(func.data().map(|s| s.as_str()), Some("hello"));
}
