use symdiff::{Base, Cos, Exp, Expression, Log, Pow, Sin, Tan, X};

#[test]
fn test_diff() {
    let cases = [
        (
            Expression::Base(Base::Scaler(0)),
            Expression::Base(Base::Scaler(0)),
        ),
        (
            Expression::Base(Base::Scaler(1)),
            Expression::Base(Base::Scaler(0)),
        ),
        (
            Expression::Base(Base::X(X {})),
            Expression::Base(Base::Scaler(1)),
        ),
        (
            Expression::Base(Base::Exp(Exp {
                arg: Box::new(Expression::Base(Base::X(X {}))),
            })),
            Expression::Mul(vec![
                Expression::Base(Base::Exp(Exp {
                    arg: Box::new(Expression::Base(Base::X(X {}))),
                })),
                Expression::Base(Base::Scaler(1)),
            ]),
        ),
        (
            Expression::Base(Base::Pow(Pow {
                exp: 1,
                arg: Box::new(Expression::Base(Base::Scaler(1))),
            })),
            Expression::Mul(vec![
                Expression::Base(Base::Scaler(1)),
                Expression::Base(Base::Pow(Pow {
                    exp: 0,
                    arg: Box::new(Expression::Base(Base::Scaler(1))),
                })),
                Expression::Base(Base::Scaler(0)),
            ]),
        ),
        (
            Expression::Base(Base::Pow(Pow {
                exp: 1,
                arg: Box::new(Expression::Base(Base::X(X {}))),
            })),
            Expression::Mul(vec![
                Expression::Base(Base::Scaler(1)),
                Expression::Base(Base::Pow(Pow {
                    exp: 0,
                    arg: Box::new(Expression::Base(Base::X(X {}))),
                })),
                Expression::Base(Base::Scaler(1)),
            ]),
        ),
        (
            Expression::Base(Base::Log(Log {
                arg: Box::new(Expression::Base(Base::X(X {}))),
            })),
            Expression::Mul(vec![
                Expression::Base(Base::Pow(Pow {
                    exp: -1,
                    arg: Box::new(Expression::Base(Base::X(X {}))),
                })),
                Expression::Base(Base::Scaler(1)),
            ]),
        ),
        (
            Expression::Base(Base::Sin(Sin {
                arg: Box::new(Expression::Base(Base::X(X {}))),
            })),
            Expression::Mul(vec![
                Expression::Base(Base::Cos(Cos {
                    arg: Box::new(Expression::Base(Base::X(X {}))),
                })),
                Expression::Base(Base::Scaler(1)),
            ]),
        ),
        (
            Expression::Base(Base::Tan(Tan {
                arg: Box::new(Expression::Base(Base::X(X {}))),
            })),
            Expression::Mul(vec![
                Expression::Base(Base::Pow(Pow {
                    exp: -2,
                    arg: Box::new(Expression::Base(Base::Cos(Cos {
                        arg: Box::new(Expression::Base(Base::X(X {}))),
                    }))),
                })),
                Expression::Base(Base::Scaler(1)),
            ]),
        ),
        (
            Expression::Base(Base::Exp(Exp {
                arg: Box::new(Expression::Base(Base::Pow(Pow {
                    exp: 2,
                    arg: Box::new(Expression::Base(Base::X(X {}))),
                }))),
            })),
            Expression::Mul(vec![
                Expression::Base(Base::Exp(Exp {
                    arg: Box::new(Expression::Base(Base::Pow(Pow {
                        exp: 2,
                        arg: Box::new(Expression::Base(Base::X(X {}))),
                    }))),
                })),
                Expression::Mul(vec![
                    Expression::Base(Base::Scaler(2)),
                    Expression::Base(Base::Pow(Pow {
                        exp: 1,
                        arg: Box::new(Expression::Base(Base::X(X {}))),
                    })),
                    Expression::Base(Base::Scaler(1)),
                ]),
            ]),
        ),
        (
            Expression::Base(Base::Exp(Exp {
                arg: Box::new(Expression::Base(Base::Log(Log {
                    arg: Box::new(Expression::Base(Base::X(X {}))),
                }))),
            })),
            Expression::Mul(vec![
                Expression::Base(Base::Exp(Exp {
                    arg: Box::new(Expression::Base(Base::Log(Log {
                        arg: Box::new(Expression::Base(Base::X(X {}))),
                    }))),
                })),
                Expression::Mul(vec![
                    Expression::Base(Base::Pow(Pow {
                        exp: -1,
                        arg: Box::new(Expression::Base(Base::X(X {}))),
                    })),
                    Expression::Base(Base::Scaler(1)),
                ]),
            ]),
        ),
        (
            Expression::Base(Base::Sin(Sin {
                arg: Box::new(Expression::Base(Base::Cos(Cos {
                    arg: Box::new(Expression::Base(Base::X(X {}))),
                }))),
            })),
            Expression::Mul(vec![
                Expression::Base(Base::Cos(Cos {
                    arg: Box::new(Expression::Base(Base::Cos(Cos {
                        arg: Box::new(Expression::Base(Base::X(X {}))),
                    }))),
                })),
                Expression::Mul(vec![
                    Expression::Base(Base::Scaler(-1)),
                    Expression::Base(Base::Sin(Sin {
                        arg: Box::new(Expression::Base(Base::X(X {}))),
                    })),
                    Expression::Base(Base::Scaler(1)),
                ]),
            ]),
        ),
        (
            Expression::Base(Base::Tan(Tan {
                arg: Box::new(Expression::Base(Base::Log(Log {
                    arg: Box::new(Expression::Base(Base::X(X {}))),
                }))),
            })),
            Expression::Mul(vec![
                Expression::Base(Base::Pow(Pow {
                    exp: -2,
                    arg: Box::new(Expression::Base(Base::Cos(Cos {
                        arg: Box::new(Expression::Base(Base::Log(Log {
                            arg: Box::new(Expression::Base(Base::X(X {}))),
                        }))),
                    }))),
                })),
                Expression::Mul(vec![
                    Expression::Base(Base::Pow(Pow {
                        exp: -1,
                        arg: Box::new(Expression::Base(Base::X(X {}))),
                    })),
                    Expression::Base(Base::Scaler(1)),
                ]),
            ]),
        ),
        (
            Expression::Add(vec![Expression::Base(Base::Scaler(1))]),
            Expression::Add(vec![Expression::Base(Base::Scaler(0))]),
        ),
        (
            Expression::Mul(vec![Expression::Base(Base::Scaler(1))]),
            Expression::Add(vec![Expression::Mul(vec![Expression::Base(Base::Scaler(
                0,
            ))])]),
        ),
        (
            Expression::Add(vec![
                Expression::Base(Base::X(X {})),
                Expression::Base(Base::Scaler(1)),
            ]),
            Expression::Add(vec![
                Expression::Base(Base::Scaler(1)),
                Expression::Base(Base::Scaler(0)),
            ]),
        ),
        (
            Expression::Mul(vec![
                Expression::Base(Base::X(X {})),
                Expression::Base(Base::Exp(Exp {
                    arg: Box::new(Expression::Base(Base::X(X {}))),
                })),
            ]),
            Expression::Add(vec![
                Expression::Mul(vec![
                    Expression::Base(Base::Scaler(1)),
                    Expression::Base(Base::Exp(Exp {
                        arg: Box::new(Expression::Base(Base::X(X {}))),
                    })),
                ]),
                Expression::Mul(vec![
                    Expression::Base(Base::X(X {})),
                    Expression::Mul(vec![
                        Expression::Base(Base::Exp(Exp {
                            arg: Box::new(Expression::Base(Base::X(X {}))),
                        })),
                        Expression::Base(Base::Scaler(1)),
                    ]),
                ]),
            ]),
        ),
        (
            Expression::Mul(vec![
                Expression::Add(vec![
                    Expression::Base(Base::X(X {})),
                    Expression::Base(Base::Exp(Exp {
                        arg: Box::new(Expression::Base(Base::X(X {}))),
                    })),
                ]),
                Expression::Add(vec![
                    Expression::Base(Base::X(X {})),
                    Expression::Base(Base::Exp(Exp {
                        arg: Box::new(Expression::Base(Base::X(X {}))),
                    })),
                ]),
            ]),
            Expression::Add(vec![
                Expression::Mul(vec![
                    Expression::Add(vec![
                        Expression::Base(Base::Scaler(1)),
                        Expression::Mul(vec![
                            Expression::Base(Base::Exp(Exp {
                                arg: Box::new(Expression::Base(Base::X(X {}))),
                            })),
                            Expression::Base(Base::Scaler(1)),
                        ]),
                    ]),
                    Expression::Add(vec![
                        Expression::Base(Base::X(X {})),
                        Expression::Base(Base::Exp(Exp {
                            arg: Box::new(Expression::Base(Base::X(X {}))),
                        })),
                    ]),
                ]),
                Expression::Mul(vec![
                    Expression::Add(vec![
                        Expression::Base(Base::X(X {})),
                        Expression::Base(Base::Exp(Exp {
                            arg: Box::new(Expression::Base(Base::X(X {}))),
                        })),
                    ]),
                    Expression::Add(vec![
                        Expression::Base(Base::Scaler(1)),
                        Expression::Mul(vec![
                            Expression::Base(Base::Exp(Exp {
                                arg: Box::new(Expression::Base(Base::X(X {}))),
                            })),
                            Expression::Base(Base::Scaler(1)),
                        ]),
                    ]),
                ]),
            ]),
        ),
        (
            Expression::Add(vec![
                Expression::Mul(vec![
                    Expression::Base(Base::Sin(Sin {
                        arg: Box::new(Expression::Base(Base::X(X {}))),
                    })),
                    Expression::Base(Base::Cos(Cos {
                        arg: Box::new(Expression::Base(Base::X(X {}))),
                    })),
                    Expression::Base(Base::Tan(Tan {
                        arg: Box::new(Expression::Base(Base::X(X {}))),
                    })),
                ]),
                Expression::Mul(vec![
                    Expression::Base(Base::Exp(Exp {
                        arg: Box::new(Expression::Base(Base::X(X {}))),
                    })),
                    Expression::Base(Base::Log(Log {
                        arg: Box::new(Expression::Base(Base::X(X {}))),
                    })),
                ]),
            ]),
            Expression::Add(vec![
                Expression::Add(vec![
                    Expression::Mul(vec![
                        Expression::Mul(vec![
                            Expression::Base(Base::Cos(Cos {
                                arg: Box::new(Expression::Base(Base::X(X {}))),
                            })),
                            Expression::Base(Base::Scaler(1)),
                        ]),
                        Expression::Base(Base::Cos(Cos {
                            arg: Box::new(Expression::Base(Base::X(X {}))),
                        })),
                        Expression::Base(Base::Tan(Tan {
                            arg: Box::new(Expression::Base(Base::X(X {}))),
                        })),
                    ]),
                    Expression::Mul(vec![
                        Expression::Base(Base::Sin(Sin {
                            arg: Box::new(Expression::Base(Base::X(X {}))),
                        })),
                        Expression::Mul(vec![
                            Expression::Base(Base::Scaler(-1)),
                            Expression::Base(Base::Sin(Sin {
                                arg: Box::new(Expression::Base(Base::X(X {}))),
                            })),
                            Expression::Base(Base::Scaler(1)),
                        ]),
                        Expression::Base(Base::Tan(Tan {
                            arg: Box::new(Expression::Base(Base::X(X {}))),
                        })),
                    ]),
                    Expression::Mul(vec![
                        Expression::Base(Base::Sin(Sin {
                            arg: Box::new(Expression::Base(Base::X(X {}))),
                        })),
                        Expression::Base(Base::Cos(Cos {
                            arg: Box::new(Expression::Base(Base::X(X {}))),
                        })),
                        Expression::Mul(vec![
                            Expression::Base(Base::Pow(Pow {
                                exp: -2,
                                arg: Box::new(Expression::Base(Base::Cos(Cos {
                                    arg: Box::new(Expression::Base(Base::X(X {}))),
                                }))),
                            })),
                            Expression::Base(Base::Scaler(1)),
                        ]),
                    ]),
                ]),
                Expression::Add(vec![
                    Expression::Mul(vec![
                        Expression::Mul(vec![
                            Expression::Base(Base::Exp(Exp {
                                arg: Box::new(Expression::Base(Base::X(X {}))),
                            })),
                            Expression::Base(Base::Scaler(1)),
                        ]),
                        Expression::Base(Base::Log(Log {
                            arg: Box::new(Expression::Base(Base::X(X {}))),
                        })),
                    ]),
                    Expression::Mul(vec![
                        Expression::Base(Base::Exp(Exp {
                            arg: Box::new(Expression::Base(Base::X(X {}))),
                        })),
                        Expression::Mul(vec![
                            Expression::Base(Base::Pow(Pow {
                                exp: -1,
                                arg: Box::new(Expression::Base(Base::X(X {}))),
                            })),
                            Expression::Base(Base::Scaler(1)),
                        ]),
                    ]),
                ]),
            ]),
        ),
        (
            Expression::Base(Base::Exp(Exp {
                arg: Box::new(Expression::Add(vec![
                    Expression::Base(Base::X(X {})),
                    Expression::Base(Base::Scaler(1)),
                ])),
            })),
            Expression::Mul(vec![
                Expression::Base(Base::Exp(Exp {
                    arg: Box::new(Expression::Add(vec![
                        Expression::Base(Base::X(X {})),
                        Expression::Base(Base::Scaler(1)),
                    ])),
                })),
                Expression::Add(vec![
                    Expression::Base(Base::Scaler(1)),
                    Expression::Base(Base::Scaler(0)),
                ]),
            ]),
        ),
        (
            Expression::Base(Base::Sin(Sin {
                arg: Box::new(Expression::Mul(vec![
                    Expression::Base(Base::Scaler(2)),
                    Expression::Base(Base::X(X {})),
                ])),
            })),
            Expression::Mul(vec![
                Expression::Base(Base::Cos(Cos {
                    arg: Box::new(Expression::Mul(vec![
                        Expression::Base(Base::Scaler(2)),
                        Expression::Base(Base::X(X {})),
                    ])),
                })),
                Expression::Add(vec![
                    Expression::Mul(vec![
                        Expression::Base(Base::Scaler(0)),
                        Expression::Base(Base::X(X {})),
                    ]),
                    Expression::Mul(vec![
                        Expression::Base(Base::Scaler(2)),
                        Expression::Base(Base::Scaler(1)),
                    ]),
                ]),
            ]),
        ),
        (
            Expression::Base(Base::Log(Log {
                arg: Box::new(Expression::Base(Base::Scaler(0))),
            })),
            Expression::Mul(vec![
                Expression::Base(Base::Pow(Pow {
                    exp: -1,
                    arg: Box::new(Expression::Base(Base::Scaler(0))),
                })),
                Expression::Base(Base::Scaler(0)),
            ]),
        ),
    ];

    for case in cases {
        assert_eq!(case.0.diff(), case.1);
    }
}
